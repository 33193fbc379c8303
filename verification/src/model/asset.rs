use crate::model::error::{general_failure, outcome, ContractError, ContractErrorView};
use crate::model::msg::AssetDefinitionInput;
use crate::model::types::access_route::{
    access_owners, lemma_with_routes_distinct, replace_access_routes, with_routes,
    AccessDefinition, AccessDefinitionView, AccessRoute, AccessRouteView,
};
use crate::model::types::asset_onboarding_status::AssetOnboardingStatus;
use crate::model::types::asset_verification_result::{
    clone_optional_result, optional_result, AssetOnboardingTransaction,
    AssetOnboardingTransactionView, AssetVerificationResult, AssetVerificationResultView,
};
use crate::util::codec::valid_address;
use crate::util::functions::validate_address;
use crate::model::types::fee_destination::{fee_total, FeeDestination, FeeDestinationView};
use crate::util::text::{lowercase, lowercased};
use vstd::prelude::*;
use vstd::string::{StrSliceExecFns, StringExecFns};
use vstd::utf8::encode_utf8;

verus! {

/// A verifier of one asset type, with the price of its work.
#[derive(Debug, PartialEq, Eq)]
pub struct VerifierDetail {
    /// The bech32 address of the verifier's account.
    pub address: String,
    /// What an onboarding with this verifier costs, in `onboarding_denom`.
    pub onboarding_cost: u128,
    /// The coin in which the cost is paid.
    pub onboarding_denom: String,
    /// The part of the cost that goes to the fee destinations.
    pub fee_amount: u128,
    /// The accounts that share the fee.
    pub fee_destinations: Vec<FeeDestination>,
}

/// A verifier under the name that speaks of validation.
pub type ValidatorDetail = VerifierDetail;

/// What a [`VerifierDetail`] stands for.
pub struct VerifierDetailView {
    pub address: Seq<char>,
    pub onboarding_cost: nat,
    pub onboarding_denom: Seq<char>,
    pub fee_amount: nat,
    pub fee_destinations: Seq<FeeDestinationView>,
}

impl View for VerifierDetail {
    type V = VerifierDetailView;

    open spec fn view(&self) -> VerifierDetailView {
        VerifierDetailView {
            address: self.address@,
            onboarding_cost: self.onboarding_cost as nat,
            onboarding_denom: self.onboarding_denom@,
            fee_amount: self.fee_amount as nat,
            fee_destinations: self.fee_destinations.deep_view(),
        }
    }
}

impl DeepView for VerifierDetail {
    type V = VerifierDetailView;

    open spec fn deep_view(&self) -> VerifierDetailView {
        self@
    }
}

impl Clone for VerifierDetail {
    fn clone(&self) -> (r: Self)
        ensures
            r@ == self@,
    {
        let fee_destinations = self.fee_destinations.clone();
        assert(fee_destinations.deep_view() =~= self.fee_destinations.deep_view());
        VerifierDetail {
            address: self.address.clone(),
            onboarding_cost: self.onboarding_cost,
            onboarding_denom: self.onboarding_denom.clone(),
            fee_amount: self.fee_amount,
            fee_destinations,
        }
    }
}

impl VerifierDetail {
    /// A verifier at `address`.
    pub fn new(
        address: &str,
        onboarding_cost: u128,
        onboarding_denom: &str,
        fee_amount: u128,
        fee_destinations: Vec<FeeDestination>,
    ) -> (r: Self)
        ensures
            r@ == (VerifierDetailView {
                address: address@,
                onboarding_cost: onboarding_cost as nat,
                onboarding_denom: onboarding_denom@,
                fee_amount: fee_amount as nat,
                fee_destinations: fee_destinations.deep_view(),
            }),
    {
        VerifierDetail {
            address: String::from_str(address),
            onboarding_cost,
            onboarding_denom: String::from_str(onboarding_denom),
            fee_amount,
            fee_destinations,
        }
    }
}

impl VerifierDetailView {
    /// Whether the fee fits in the cost and the destinations' amounts add up
    /// to the fee.
    pub open spec fn fees_balanced(self) -> bool {
        &&& self.fee_amount <= self.onboarding_cost
        &&& fee_total(self.fee_destinations) == self.fee_amount
    }
}

/// An asset type: the scope specification its assets conform to, and who may
/// verify them.
#[derive(Debug, PartialEq, Eq)]
pub struct AssetDefinition {
    /// The name of the type. No two definitions have names that differ only
    /// in letter case.
    pub asset_type: String,
    /// The bech32 address of the scope specification. No two definitions
    /// share one.
    pub scope_spec_address: String,
    /// The verifiers that may be chosen for this type.
    pub verifiers: Vec<VerifierDetail>,
    /// Whether assets of this type can be onboarded at present.
    pub enabled: bool,
}

/// What an [`AssetDefinition`] stands for.
pub struct AssetDefinitionView {
    pub asset_type: Seq<char>,
    pub scope_spec_address: Seq<char>,
    pub verifiers: Seq<VerifierDetailView>,
    pub enabled: bool,
}

impl View for AssetDefinition {
    type V = AssetDefinitionView;

    open spec fn view(&self) -> AssetDefinitionView {
        AssetDefinitionView {
            asset_type: self.asset_type@,
            scope_spec_address: self.scope_spec_address@,
            verifiers: self.verifiers.deep_view(),
            enabled: self.enabled,
        }
    }
}

impl DeepView for AssetDefinition {
    type V = AssetDefinitionView;

    open spec fn deep_view(&self) -> AssetDefinitionView {
        self@
    }
}

impl Clone for AssetDefinition {
    fn clone(&self) -> (r: Self)
        ensures
            r@ == self@,
    {
        let verifiers = self.verifiers.clone();
        assert(verifiers.deep_view() =~= self.verifiers.deep_view());
        AssetDefinition {
            asset_type: self.asset_type.clone(),
            scope_spec_address: self.scope_spec_address.clone(),
            verifiers,
            enabled: self.enabled,
        }
    }
}

impl From<AssetDefinitionInput> for AssetDefinition {
    fn from(input: AssetDefinitionInput) -> (r: Self) {
        AssetDefinition {
            asset_type: input.asset_type,
            scope_spec_address: input.scope_spec_address,
            verifiers: input.verifiers,
            enabled: match input.enabled {
                Some(enabled) => enabled,
                None => true,
            },
        }
    }
}

impl vstd::std_specs::convert::FromSpecImpl<AssetDefinitionInput> for AssetDefinition {
    open spec fn obeys_from_spec() -> bool {
        true
    }

    open spec fn from_spec(input: AssetDefinitionInput) -> Self {
        AssetDefinition {
            asset_type: input.asset_type,
            scope_spec_address: input.scope_spec_address,
            verifiers: input.verifiers,
            enabled: match input.enabled {
                Some(enabled) => enabled,
                None => true,
            },
        }
    }
}

impl AssetDefinitionView {
    /// The key under which the definition is stored: its type in lower
    /// case, so that two spellings of one type meet.
    pub open spec fn key(self) -> Seq<char> {
        lowercased(self.asset_type)
    }
}

impl AssetDefinition {
    /// An enabled definition.
    pub fn new(asset_type: &str, scope_spec_address: &str, verifiers: Vec<VerifierDetail>) -> (r:
        Self)
        ensures
            r@ == (AssetDefinitionView {
                asset_type: asset_type@,
                scope_spec_address: scope_spec_address@,
                verifiers: verifiers.deep_view(),
                enabled: true,
            }),
    {
        AssetDefinition {
            asset_type: String::from_str(asset_type),
            scope_spec_address: String::from_str(scope_spec_address),
            verifiers,
            enabled: true,
        }
    }

    /// The bytes under which the definition is stored: the UTF-8 encoding of
    /// its type in lower case.
    pub fn storage_key(&self) -> (r: Vec<u8>)
        ensures
            r@ == encode_utf8(self@.key()),
    {
        let lowered = lowercase(self.asset_type.as_str());
        lowered.as_str().as_bytes_vec()
    }
}

/// The view of an optional verifier.
pub open spec fn optional_verifier(verifier: Option<VerifierDetail>) -> Option<VerifierDetailView> {
    match verifier {
        Some(found) => Some(found@),
        None => None,
    }
}

/// What the contract writes on the scope of an asset: where the asset
/// stands, who asked, who verifies, and what has happened so far.
#[derive(Debug, PartialEq, Eq)]
pub struct AssetScopeAttribute {
    /// The type under which the asset was onboarded.
    pub asset_type: String,
    /// The bech32 address of the account that onboarded the asset.
    pub requestor_address: String,
    /// The bech32 address of the verifier chosen for the current round.
    pub verifier_address: String,
    /// Where the current round stands.
    pub onboarding_status: AssetOnboardingStatus,
    /// The verifier as it was defined when the current round began. Later
    /// changes of the definition do not reach it.
    pub latest_verifier_detail: Option<VerifierDetail>,
    /// The verifier's answer in the current round, once given.
    pub latest_verification_result: Option<AssetVerificationResult>,
    /// The access routes on record, one entry for each owner.
    pub access_definitions: Vec<AccessDefinition>,
    /// All rounds of onboarding, the current one last.
    pub transactions: Vec<AssetOnboardingTransaction>,
}

/// What an [`AssetScopeAttribute`] stands for.
pub struct AssetScopeAttributeView {
    pub asset_type: Seq<char>,
    pub requestor_address: Seq<char>,
    pub verifier_address: Seq<char>,
    pub onboarding_status: AssetOnboardingStatus,
    pub latest_verifier_detail: Option<VerifierDetailView>,
    pub latest_verification_result: Option<AssetVerificationResultView>,
    pub access_definitions: Seq<AccessDefinitionView>,
    pub transactions: Seq<AssetOnboardingTransactionView>,
}

impl View for AssetScopeAttribute {
    type V = AssetScopeAttributeView;

    open spec fn view(&self) -> AssetScopeAttributeView {
        AssetScopeAttributeView {
            asset_type: self.asset_type@,
            requestor_address: self.requestor_address@,
            verifier_address: self.verifier_address@,
            onboarding_status: self.onboarding_status,
            latest_verifier_detail: optional_verifier(self.latest_verifier_detail),
            latest_verification_result: optional_result(self.latest_verification_result),
            access_definitions: self.access_definitions.deep_view(),
            transactions: self.transactions.deep_view(),
        }
    }
}

impl DeepView for AssetScopeAttribute {
    type V = AssetScopeAttributeView;

    open spec fn deep_view(&self) -> AssetScopeAttributeView {
        self@
    }
}

impl Clone for AssetScopeAttribute {
    fn clone(&self) -> (r: Self)
        ensures
            r@ == self@,
    {
        let access_definitions = self.access_definitions.clone();
        assert(access_definitions.deep_view() =~= self.access_definitions.deep_view());
        let transactions = self.transactions.clone();
        assert(transactions.deep_view() =~= self.transactions.deep_view());
        AssetScopeAttribute {
            asset_type: self.asset_type.clone(),
            requestor_address: self.requestor_address.clone(),
            verifier_address: self.verifier_address.clone(),
            onboarding_status: self.onboarding_status,
            latest_verifier_detail: match &self.latest_verifier_detail {
                Some(detail) => Some(detail.clone()),
                None => None,
            },
            latest_verification_result: clone_optional_result(&self.latest_verification_result),
            access_definitions,
            transactions,
        }
    }
}

impl AssetScopeAttributeView {
    /// Whether the attribute hangs together: the history numbers its rounds
    /// from 0, every round but the last has its answer, the last round is
    /// the current one, the status says what the answer says, the verifier
    /// on record is the one chosen, and no owner has two entries of access
    /// routes.
    pub open spec fn wf(self) -> bool {
        &&& self.transactions.len() >= 1
        &&& forall|i: int|
            0 <= i < self.transactions.len() ==> (#[trigger] self.transactions[i]).index == i
        &&& forall|i: int|
            0 <= i < self.transactions.len() - 1 ==> (#[trigger] self.transactions[i]).result
                is Some
        &&& self.transactions.last().result == self.latest_verification_result
        &&& self.transactions.last().verifier_address == self.verifier_address
        &&& match self.latest_verification_result {
            Some(result) => self.onboarding_status == AssetOnboardingStatus::of_outcome(
                result.success,
            ),
            None => self.onboarding_status == AssetOnboardingStatus::Pending,
        }
        &&& self.latest_verifier_detail matches Some(detail) && detail.address
            == self.verifier_address
        &&& access_owners(self.access_definitions).no_duplicates()
    }

    /// The attribute of an asset that is onboarded for the first time, with
    /// no access routes.
    pub open spec fn first_round(
        asset_type: Seq<char>,
        requestor_address: Seq<char>,
        verifier_address: Seq<char>,
        onboarding_status: AssetOnboardingStatus,
        verifier: VerifierDetailView,
    ) -> AssetScopeAttributeView {
        AssetScopeAttributeView {
            asset_type,
            requestor_address,
            verifier_address,
            onboarding_status,
            latest_verifier_detail: Some(verifier),
            latest_verification_result: None,
            access_definitions: Seq::empty(),
            transactions: seq![
                AssetOnboardingTransactionView { index: 0, verifier_address, result: None },
            ],
        }
    }
}

/// The view of a list of transactions after one more has been recorded.
pub open spec fn next_transaction(
    history: Seq<AssetOnboardingTransactionView>,
    verifier_address: Seq<char>,
) -> Seq<AssetOnboardingTransactionView> {
    history.push(
        AssetOnboardingTransactionView { index: history.len(), verifier_address, result: None },
    )
}

/// The history with the verifier's answer recorded in the current round.
pub open spec fn answered_history(
    history: Seq<AssetOnboardingTransactionView>,
    result: AssetVerificationResultView,
) -> Seq<AssetOnboardingTransactionView> {
    if history.len() == 0 {
        history
    } else {
        history.update(
            history.len() - 1,
            AssetOnboardingTransactionView {
                index: history.last().index,
                verifier_address: history.last().verifier_address,
                result: Some(result),
            },
        )
    }
}

impl AssetScopeAttributeView {
    /// The attribute at the start of a round of onboarding: pending, with
    /// the verifier as it is defined now, the requestor's access routes if
    /// there are any, and one more round in the history of the asset.
    pub open spec fn onboarded(
        previous: Option<AssetScopeAttributeView>,
        asset_type: Seq<char>,
        requestor_address: Seq<char>,
        verifier: VerifierDetailView,
        access_routes: Seq<AccessRouteView>,
    ) -> AssetScopeAttributeView {
        AssetScopeAttributeView {
            asset_type,
            requestor_address,
            verifier_address: verifier.address,
            onboarding_status: AssetOnboardingStatus::Pending,
            latest_verifier_detail: Some(verifier),
            latest_verification_result: None,
            access_definitions: if access_routes.len() == 0 {
                Seq::empty()
            } else {
                seq![AccessDefinitionView { owner_address: requestor_address, access_routes }]
            },
            transactions: next_transaction(
                match previous {
                    Some(attribute) => attribute.transactions,
                    None => Seq::empty(),
                },
                verifier.address,
            ),
        }
    }

    /// The attribute after the verifier has answered: approved or denied,
    /// the answer on record for the current round, and the verifier's access
    /// routes replaced if it supplied any.
    pub open spec fn verified(
        self,
        success: bool,
        message: Seq<char>,
        access_routes: Seq<AccessRouteView>,
    ) -> AssetScopeAttributeView {
        let result = AssetVerificationResultView { message, success };
        AssetScopeAttributeView {
            asset_type: self.asset_type,
            requestor_address: self.requestor_address,
            verifier_address: self.verifier_address,
            onboarding_status: AssetOnboardingStatus::of_outcome(success),
            latest_verifier_detail: self.latest_verifier_detail,
            latest_verification_result: Some(result),
            access_definitions: if access_routes.len() == 0 {
                self.access_definitions
            } else {
                with_routes(self.access_definitions, self.verifier_address, access_routes)
            },
            transactions: answered_history(self.transactions, result),
        }
    }

    /// The attribute after the routes of one owner have been replaced.
    pub open spec fn rerouted(
        self,
        owner_address: Seq<char>,
        access_routes: Seq<AccessRouteView>,
    ) -> AssetScopeAttributeView {
        AssetScopeAttributeView {
            asset_type: self.asset_type,
            requestor_address: self.requestor_address,
            verifier_address: self.verifier_address,
            onboarding_status: self.onboarding_status,
            latest_verifier_detail: self.latest_verifier_detail,
            latest_verification_result: self.latest_verification_result,
            access_definitions: with_routes(self.access_definitions, owner_address, access_routes),
            transactions: self.transactions,
        }
    }
}

/// A round of onboarding that begins on an asset that has none under way
/// leaves an attribute that hangs together.
pub proof fn lemma_onboarded_wf(
    previous: Option<AssetScopeAttributeView>,
    asset_type: Seq<char>,
    requestor_address: Seq<char>,
    verifier: VerifierDetailView,
    access_routes: Seq<AccessRouteView>,
)
    requires
        previous matches Some(attribute) ==> attribute.wf()
            && attribute.onboarding_status.is_terminal(),
    ensures
        AssetScopeAttributeView::onboarded(
            previous,
            asset_type,
            requestor_address,
            verifier,
            access_routes,
        ).wf(),
{
    let after = AssetScopeAttributeView::onboarded(
        previous,
        asset_type,
        requestor_address,
        verifier,
        access_routes,
    );
    let history = match previous {
        Some(attribute) => attribute.transactions,
        None => Seq::empty(),
    };
    assert forall|i: int| 0 <= i < after.transactions.len() implies (
    #[trigger] after.transactions[i]).index == i by {
        if i < history.len() {
            assert(after.transactions[i] == history[i]);
        }
    }
    assert forall|i: int| 0 <= i < after.transactions.len() - 1 implies (
    #[trigger] after.transactions[i]).result is Some by {
        assert(after.transactions[i] == history[i]);
        if i == history.len() - 1 {
            assert(history[i] == history.last());
        }
    }
    assert(access_owners(after.access_definitions).no_duplicates());
}

/// The verifier's answer on a pending asset leaves an attribute that hangs
/// together, with the round over.
pub proof fn lemma_verified_wf(
    attribute: AssetScopeAttributeView,
    success: bool,
    message: Seq<char>,
    access_routes: Seq<AccessRouteView>,
)
    requires
        attribute.wf(),
    ensures
        attribute.verified(success, message, access_routes).wf(),
        attribute.verified(success, message, access_routes).onboarding_status.is_terminal(),
{
    let after = attribute.verified(success, message, access_routes);
    assert forall|i: int| 0 <= i < after.transactions.len() implies (
    #[trigger] after.transactions[i]).index == i by {
        if i < attribute.transactions.len() - 1 {
            assert(after.transactions[i] == attribute.transactions[i]);
        } else {
            assert(attribute.transactions[i] == attribute.transactions.last());
        }
    }
    assert forall|i: int| 0 <= i < after.transactions.len() - 1 implies (
    #[trigger] after.transactions[i]).result is Some by {
        assert(after.transactions[i] == attribute.transactions[i]);
    }
    if access_routes.len() != 0 {
        lemma_with_routes_distinct(
            attribute.access_definitions,
            attribute.verifier_address,
            access_routes,
        );
    }
}

/// New routes for an owner leave an attribute that hangs together.
pub proof fn lemma_rerouted_wf(
    attribute: AssetScopeAttributeView,
    owner_address: Seq<char>,
    access_routes: Seq<AccessRouteView>,
)
    requires
        attribute.wf(),
    ensures
        attribute.rerouted(owner_address, access_routes).wf(),
{
    lemma_with_routes_distinct(attribute.access_definitions, owner_address, access_routes);
}

/// A part of what an error says; the values it speaks of stand between the parts.
pub const ADDRESS_MISMATCH_HEAD: &'static str = "provided validator address [";

/// A part of what an error says; the values it speaks of stand between the parts.
pub const ADDRESS_MISMATCH_MIDDLE: &'static str =
    "] did not match the validator detail's address [";

/// A part of what an error says; the values it speaks of stand between the parts.
pub const ADDRESS_MISMATCH_TAIL: &'static str = "]";

/// What is said when the verifier chosen is not the verifier described.
pub fn address_mismatch_message(verifier_address: &str, detail_address: &str) -> (r: String)
    ensures
        r@ == ADDRESS_MISMATCH_HEAD@ + verifier_address@ + ADDRESS_MISMATCH_MIDDLE@
            + detail_address@ + ADDRESS_MISMATCH_TAIL@,
{
    String::from_str(ADDRESS_MISMATCH_HEAD).concat(verifier_address).concat(
        ADDRESS_MISMATCH_MIDDLE,
    ).concat(detail_address).concat(ADDRESS_MISMATCH_TAIL)
}

impl AssetScopeAttribute {
    /// The attribute at the start of a round of onboarding. The history of
    /// the attribute that was on the scope before, if any, is carried on.
    pub fn onboard(
        previous: Option<&AssetScopeAttribute>,
        asset_type: &str,
        requestor_address: &str,
        verifier: &VerifierDetail,
        access_routes: Vec<AccessRoute>,
    ) -> (r: Self)
        ensures
            r@ == AssetScopeAttributeView::onboarded(
                match previous {
                    Some(attribute) => Some(attribute@),
                    None => None,
                },
                asset_type@,
                requestor_address@,
                verifier@,
                access_routes.deep_view(),
            ),
            (previous matches Some(attribute) ==> attribute@.wf()
                && attribute@.onboarding_status.is_terminal()) ==> r@.wf(),
    {
        proof {
            if previous matches Some(attribute) ==> attribute@.wf()
                && attribute@.onboarding_status.is_terminal() {
                lemma_onboarded_wf(
                    match previous {
                        Some(attribute) => Some(attribute@),
                        None => None,
                    },
                    asset_type@,
                    requestor_address@,
                    verifier@,
                    access_routes.deep_view(),
                );
            }
        }
        let mut transactions: Vec<AssetOnboardingTransaction> = match previous {
            Some(attribute) => attribute.transactions.clone(),
            None => Vec::new(),
        };
        let ghost history = match previous {
            Some(attribute) => attribute@.transactions,
            None => Seq::empty(),
        };
        assert(transactions.deep_view() =~= history);
        let index = transactions.len() as u64;
        transactions.push(
            AssetOnboardingTransaction {
                index,
                verifier_address: verifier.address.clone(),
                result: None,
            },
        );
        assert(transactions.deep_view() =~= next_transaction(history, verifier@.address));
        let mut access_definitions: Vec<AccessDefinition> = Vec::new();
        let ghost routes = access_routes.deep_view();
        if access_routes.len() != 0 {
            access_definitions.push(
                AccessDefinition {
                    owner_address: String::from_str(requestor_address),
                    access_routes,
                },
            );
            assert(access_definitions.deep_view() =~= seq![
                AccessDefinitionView { owner_address: requestor_address@, access_routes: routes },
            ]);
        } else {
            assert(access_definitions.deep_view() =~= Seq::empty());
        }
        AssetScopeAttribute {
            asset_type: String::from_str(asset_type),
            requestor_address: String::from_str(requestor_address),
            verifier_address: verifier.address.clone(),
            onboarding_status: AssetOnboardingStatus::Pending,
            latest_verifier_detail: Some(verifier.clone()),
            latest_verification_result: None,
            access_definitions,
            transactions,
        }
    }

    /// The attribute after the verifier has answered.
    pub fn verify(&self, success: bool, message: &str, access_routes: Vec<AccessRoute>) -> (r: Self)
        ensures
            r@ == self@.verified(success, message@, access_routes.deep_view()),
            self@.wf() ==> r@.wf() && r@.onboarding_status.is_terminal(),
    {
        proof {
            if self@.wf() {
                lemma_verified_wf(self@, success, message@, access_routes.deep_view());
            }
        }
        let mut transactions = self.transactions.clone();
        assert(transactions.deep_view() =~= self@.transactions);
        let ghost result = AssetVerificationResultView { message: message@, success };
        let count = transactions.len();
        if count != 0 {
            let current = AssetOnboardingTransaction {
                index: transactions[count - 1].index,
                verifier_address: transactions[count - 1].verifier_address.clone(),
                result: Some(AssetVerificationResult::new(message, success)),
            };
            transactions.set(count - 1, current);
        }
        assert(transactions.deep_view() =~= answered_history(self@.transactions, result));
        let access_definitions = if access_routes.len() == 0 {
            let kept = self.access_definitions.clone();
            assert(kept.deep_view() =~= self@.access_definitions);
            kept
        } else {
            replace_access_routes(
                &self.access_definitions,
                self.verifier_address.as_str(),
                access_routes,
            )
        };
        AssetScopeAttribute {
            asset_type: self.asset_type.clone(),
            requestor_address: self.requestor_address.clone(),
            verifier_address: self.verifier_address.clone(),
            onboarding_status: if success {
                AssetOnboardingStatus::Approved
            } else {
                AssetOnboardingStatus::Denied
            },
            latest_verifier_detail: match &self.latest_verifier_detail {
                Some(detail) => Some(detail.clone()),
                None => None,
            },
            latest_verification_result: Some(AssetVerificationResult::new(message, success)),
            access_definitions,
            transactions,
        }
    }

    /// The attribute after the routes of one owner have been replaced.
    pub fn reroute(&self, owner_address: &str, access_routes: Vec<AccessRoute>) -> (r: Self)
        ensures
            r@ == self@.rerouted(owner_address@, access_routes.deep_view()),
            self@.wf() ==> r@.wf(),
    {
        proof {
            if self@.wf() {
                lemma_rerouted_wf(self@, owner_address@, access_routes.deep_view());
            }
        }
        let access_definitions = replace_access_routes(
            &self.access_definitions,
            owner_address,
            access_routes,
        );
        let transactions = self.transactions.clone();
        assert(transactions.deep_view() =~= self@.transactions);
        AssetScopeAttribute {
            asset_type: self.asset_type.clone(),
            requestor_address: self.requestor_address.clone(),
            verifier_address: self.verifier_address.clone(),
            onboarding_status: self.onboarding_status,
            latest_verifier_detail: match &self.latest_verifier_detail {
                Some(detail) => Some(detail.clone()),
                None => None,
            },
            latest_verification_result: clone_optional_result(&self.latest_verification_result),
            access_definitions,
            transactions,
        }
    }

    /// The attribute of an asset in its first round, with nothing checked.
    /// The status is `Pending` unless another one is given.
    pub fn new_unchecked(
        asset_type: &str,
        requestor_address: &str,
        verifier_address: &str,
        onboarding_status: Option<AssetOnboardingStatus>,
        latest_verifier_detail: VerifierDetail,
    ) -> (r: Self)
        ensures
            r@ == AssetScopeAttributeView::first_round(
                asset_type@,
                requestor_address@,
                verifier_address@,
                match onboarding_status {
                    Some(status) => status,
                    None => AssetOnboardingStatus::Pending,
                },
                latest_verifier_detail@,
            ),
    {
        let mut transactions: Vec<AssetOnboardingTransaction> = Vec::new();
        transactions.push(
            AssetOnboardingTransaction {
                index: 0,
                verifier_address: String::from_str(verifier_address),
                result: None,
            },
        );
        let r = AssetScopeAttribute {
            asset_type: String::from_str(asset_type),
            requestor_address: String::from_str(requestor_address),
            verifier_address: String::from_str(verifier_address),
            onboarding_status: match onboarding_status {
                Some(status) => status,
                None => AssetOnboardingStatus::Pending,
            },
            latest_verifier_detail: Some(latest_verifier_detail),
            latest_verification_result: None,
            access_definitions: Vec::new(),
            transactions,
        };
        assert(r@.access_definitions =~= Seq::empty());
        assert(r@.transactions =~= seq![
            AssetOnboardingTransactionView {
                index: 0,
                verifier_address: verifier_address@,
                result: None,
            },
        ]);
        r
    }

    /// The attribute of an asset in its first round. Both addresses must be
    /// valid bech32, the requestor's being looked at first, and the verifier
    /// chosen must be the verifier described; if it is not, the failure says
    /// so in the words of [`address_mismatch_message`].
    pub fn new(
        asset_type: &str,
        requestor_address: &str,
        verifier_address: &str,
        onboarding_status: Option<AssetOnboardingStatus>,
        latest_verifier_detail: VerifierDetail,
    ) -> (r: Result<Self, ContractError>)
        ensures
            outcome(r) == if !valid_address(requestor_address@) || !valid_address(
                verifier_address@,
            ) {
                Err(ContractErrorView::Bech32Error)
            } else if verifier_address@ != latest_verifier_detail@.address {
                Err(
                    general_failure(
                        ADDRESS_MISMATCH_HEAD@ + verifier_address@ + ADDRESS_MISMATCH_MIDDLE@
                            + latest_verifier_detail@.address + ADDRESS_MISMATCH_TAIL@,
                    ),
                )
            } else {
                Ok(
                    AssetScopeAttributeView::first_round(
                        asset_type@,
                        requestor_address@,
                        verifier_address@,
                        match onboarding_status {
                            Some(status) => status,
                            None => AssetOnboardingStatus::Pending,
                        },
                        latest_verifier_detail@,
                    ),
                )
            },
            r matches Ok(attribute) ==> (onboarding_status matches Some(status) ==> status
                == AssetOnboardingStatus::Pending) ==> attribute@.wf(),
    {
        let req_addr = match validate_address(requestor_address) {
            Ok(address) => address,
            Err(error) => {
                return Err(error);
            },
        };
        let val_addr = match validate_address(verifier_address) {
            Ok(address) => address,
            Err(error) => {
                return Err(error);
            },
        };
        if val_addr != latest_verifier_detail.address {
            return Err(
                ContractError::std_err(
                    address_mismatch_message(
                        val_addr.as_str(),
                        latest_verifier_detail.address.as_str(),
                    ),
                ),
            );
        }
        Ok(
            AssetScopeAttribute::new_unchecked(
                asset_type,
                req_addr.as_str(),
                val_addr.as_str(),
                onboarding_status,
                latest_verifier_detail,
            ),
        )
    }
}

} // verus!
