use crate::model::asset::{AssetDefinition, AssetDefinitionView, VerifierDetail, VerifierDetailView};
use crate::model::error::{verdict, ContractError, ContractErrorView};
use crate::model::msg::{AssetDefinitionInput, InitMsg};
use crate::model::types::fee_destination::{fee_total, FeeDestination, FeeDestinationView};
use crate::util::codec::valid_address;
use crate::util::functions::{distinct_count_by_property, key_texts, validate_address};
use crate::util::text::{append_texts, push_text, texts};
use vstd::prelude::*;
use vstd::string::StringExecFns;

verus! {

/// The message type that is named where a message of this kind is turned down.
pub const INSTANTIATE_MESSAGE: &'static str = "Instantiate";

/// What is said of a field that fails this check.
pub const BLANK_BASE_NAME: &'static str = "base_contract_name: must not be blank";

/// The message type that is named where a message of this kind is turned down.
pub const DEFINITION_MESSAGE: &'static str = "AssetDefinition";

/// The message type that is named where a message of this kind is turned down.
pub const VERIFIER_MESSAGE: &'static str = "VerifierDetail";

/// What is said of a field that fails this check.
pub const BLANK_ASSET_TYPE: &'static str = "asset_definition:asset_type: must not be blank";

/// What is said of a field that fails this check.
pub const BLANK_SCOPE_SPEC: &'static str = "asset_definition:scope_spec_address: must not be blank";

/// What is said of a field that fails this check.
pub const INVALID_SCOPE_SPEC: &'static str =
    "asset_definition:scope_spec_address: must be a valid address";

/// What is said of a field that fails this check.
pub const NO_VERIFIERS: &'static str =
    "asset_definition:verifiers: at least one verifier must be supplied per asset type";

/// What is said of a field that fails this check.
pub const REPEATED_VERIFIER: &'static str =
    "asset_definition:verifiers: all verifiers within an asset definition must have unique addresses";

/// What is said of a field that fails this check.
pub const BLANK_VERIFIER_ADDRESS: &'static str = "verifier:address: must not be blank";

/// What is said of a field that fails this check.
pub const INVALID_VERIFIER_ADDRESS: &'static str = "verifier:address: must be a valid address";

/// What is said of a field that fails this check.
pub const EXCESSIVE_FEE: &'static str =
    "verifier:fee_amount: must not be greater than the onboarding cost";

/// What is said of a field that fails this check.
pub const UNBALANCED_FEE: &'static str =
    "verifier:fee_destinations: the fee amounts of the destinations must sum to the fee amount";

/// What is said of a field that fails this check.
pub const REPEATED_DESTINATION: &'static str =
    "verifier:fee_destinations: all fee destinations within a verifier must have unique addresses";

/// What is said of a field that fails this check.
pub const BLANK_DESTINATION_ADDRESS: &'static str = "fee_destination:address: must not be blank";

/// What is said of a field that fails this check.
pub const INVALID_DESTINATION_ADDRESS: &'static str =
    "fee_destination:address: must be a valid address";

/// Which addresses of a verifier are valid bech32.
pub struct VerifierChecks {
    /// Whether the verifier's own address is.
    pub address_valid: bool,
    /// Whether each fee destination's address is, in their order.
    pub destinations_valid: Vec<bool>,
}

/// What [`VerifierChecks`] stand for.
pub struct VerifierChecksView {
    pub address_valid: bool,
    pub destinations_valid: Seq<bool>,
}

impl View for VerifierChecks {
    type V = VerifierChecksView;

    open spec fn view(&self) -> VerifierChecksView {
        VerifierChecksView {
            address_valid: self.address_valid,
            destinations_valid: self.destinations_valid@,
        }
    }
}

impl DeepView for VerifierChecks {
    type V = VerifierChecksView;

    open spec fn deep_view(&self) -> VerifierChecksView {
        self@
    }
}

/// Which addresses of an asset definition are valid bech32.
pub struct DefinitionChecks {
    /// Whether the address of the scope specification is.
    pub scope_spec_valid: bool,
    /// The same for each verifier, in their order.
    pub verifiers: Vec<VerifierChecks>,
}

/// What [`DefinitionChecks`] stand for.
pub struct DefinitionChecksView {
    pub scope_spec_valid: bool,
    pub verifiers: Seq<VerifierChecksView>,
}

impl View for DefinitionChecks {
    type V = DefinitionChecksView;

    open spec fn view(&self) -> DefinitionChecksView {
        DefinitionChecksView {
            scope_spec_valid: self.scope_spec_valid,
            verifiers: self.verifiers.deep_view(),
        }
    }
}

/// The addresses of a list of destinations.
pub open spec fn destination_addresses(destinations: Seq<FeeDestinationView>) -> Seq<Seq<char>> {
    Seq::new(destinations.len(), |i: int| destinations[i].address)
}

/// The addresses of a list of verifiers.
pub open spec fn verifier_addresses(verifiers: Seq<VerifierDetailView>) -> Seq<Seq<char>> {
    Seq::new(verifiers.len(), |i: int| verifiers[i].address)
}

/// The checks that hold of a verifier's addresses in truth.
pub open spec fn true_verifier_checks(verifier: VerifierDetailView) -> VerifierChecksView {
    VerifierChecksView {
        address_valid: valid_address(verifier.address),
        destinations_valid: Seq::new(
            verifier.fee_destinations.len(),
            |i: int| valid_address(verifier.fee_destinations[i].address),
        ),
    }
}

/// The checks that hold of a definition's addresses in truth.
pub open spec fn true_definition_checks(definition: AssetDefinitionView) -> DefinitionChecksView {
    DefinitionChecksView {
        scope_spec_valid: valid_address(definition.scope_spec_address),
        verifiers: Seq::new(
            definition.verifiers.len(),
            |i: int| true_verifier_checks(definition.verifiers[i]),
        ),
    }
}

/// One message if the condition holds, none otherwise.
pub open spec fn complaint(condition: bool, message: Seq<char>) -> Seq<Seq<char>> {
    if condition {
        seq![message]
    } else {
        Seq::empty()
    }
}

/// What is wrong with an address: it is blank, or it is no bech32.
pub open spec fn address_errors(
    address: Seq<char>,
    address_valid: bool,
    blank: Seq<char>,
    invalid: Seq<char>,
) -> Seq<Seq<char>> {
    if address.len() == 0 {
        seq![blank]
    } else {
        complaint(!address_valid, invalid)
    }
}

/// Whether the check of the address at a position passed. A check that is
/// missing counts as failed.
pub open spec fn passed(checks: Seq<bool>, position: int) -> bool {
    0 <= position < checks.len() && checks[position]
}

/// What is wrong with the destinations one by one, in their order.
pub open spec fn destinations_errors(
    destinations: Seq<FeeDestinationView>,
    destinations_valid: Seq<bool>,
) -> Seq<Seq<char>>
    decreases destinations.len(),
{
    if destinations.len() == 0 {
        Seq::empty()
    } else {
        destinations_errors(destinations.drop_last(), destinations_valid) + address_errors(
            destinations.last().address,
            passed(destinations_valid, destinations.len() - 1),
            BLANK_DESTINATION_ADDRESS@,
            INVALID_DESTINATION_ADDRESS@,
        )
    }
}

/// What is wrong with a verifier: its address, a fee above the cost,
/// destinations that do not add up to the fee, destinations that share an
/// address, and then each destination's address.
pub open spec fn verifier_errors(verifier: VerifierDetailView, checks: VerifierChecksView) -> Seq<
    Seq<char>,
> {
    address_errors(
        verifier.address,
        checks.address_valid,
        BLANK_VERIFIER_ADDRESS@,
        INVALID_VERIFIER_ADDRESS@,
    ) + complaint(verifier.fee_amount > verifier.onboarding_cost, EXCESSIVE_FEE@) + complaint(
        fee_total(verifier.fee_destinations) != verifier.fee_amount,
        UNBALANCED_FEE@,
    ) + complaint(
        !destination_addresses(verifier.fee_destinations).no_duplicates(),
        REPEATED_DESTINATION@,
    ) + destinations_errors(verifier.fee_destinations, checks.destinations_valid)
}

/// The checks of the verifier at a position. Checks that are missing count
/// as failed.
pub open spec fn checks_at(checks: Seq<VerifierChecksView>, position: int) -> VerifierChecksView {
    if 0 <= position < checks.len() {
        checks[position]
    } else {
        VerifierChecksView { address_valid: false, destinations_valid: Seq::empty() }
    }
}

/// What is wrong with the verifiers one by one, in their order.
pub open spec fn verifiers_errors(
    verifiers: Seq<VerifierDetailView>,
    checks: Seq<VerifierChecksView>,
) -> Seq<Seq<char>>
    decreases verifiers.len(),
{
    if verifiers.len() == 0 {
        Seq::empty()
    } else {
        verifiers_errors(verifiers.drop_last(), checks) + verifier_errors(
            verifiers.last(),
            checks_at(checks, verifiers.len() - 1),
        )
    }
}

/// What is wrong with an asset definition: a blank type, the address of the
/// scope specification, no verifiers, verifiers that share an address, and
/// then each verifier.
pub open spec fn definition_errors(
    definition: AssetDefinitionView,
    checks: DefinitionChecksView,
) -> Seq<Seq<char>> {
    complaint(definition.asset_type.len() == 0, BLANK_ASSET_TYPE@) + address_errors(
        definition.scope_spec_address,
        checks.scope_spec_valid,
        BLANK_SCOPE_SPEC@,
        INVALID_SCOPE_SPEC@,
    ) + complaint(definition.verifiers.len() == 0, NO_VERIFIERS@) + complaint(
        !verifier_addresses(definition.verifiers).no_duplicates(),
        REPEATED_VERIFIER@,
    ) + verifiers_errors(definition.verifiers, checks.verifiers)
}

/// Whether nothing is wrong with a verifier.
#[verifier::opaque]
pub open spec fn verifier_valid(verifier: VerifierDetailView) -> bool {
    verifier_errors(verifier, true_verifier_checks(verifier)).len() == 0
}

/// Whether nothing is wrong with an asset definition.
#[verifier::opaque]
pub open spec fn definition_valid(definition: AssetDefinitionView) -> bool {
    definition_errors(definition, true_definition_checks(definition)).len() == 0
}

/// Whether everything that is asked of a verifier holds of it.
pub open spec fn verifier_sound(verifier: VerifierDetailView) -> bool {
    &&& verifier.address.len() > 0
    &&& valid_address(verifier.address)
    &&& verifier.fees_balanced()
    &&& destination_addresses(verifier.fee_destinations).no_duplicates()
    &&& forall|i: int|
        0 <= i < verifier.fee_destinations.len() ==> (
        #[trigger] verifier.fee_destinations[i]).address.len() > 0 && valid_address(
            verifier.fee_destinations[i].address,
        )
}

/// Whether everything that is asked of an asset definition holds of it.
pub open spec fn definition_sound(definition: AssetDefinitionView) -> bool {
    &&& definition.asset_type.len() > 0
    &&& definition.scope_spec_address.len() > 0
    &&& valid_address(definition.scope_spec_address)
    &&& definition.verifiers.len() > 0
    &&& verifier_addresses(definition.verifiers).no_duplicates()
    &&& forall|i: int|
        0 <= i < definition.verifiers.len() ==> verifier_valid(#[trigger] definition.verifiers[i])
}

/// Nothing is wrong with the destinations exactly if each has an address
/// that is not blank and passed its check.
pub proof fn lemma_destinations_errors(
    destinations: Seq<FeeDestinationView>,
    destinations_valid: Seq<bool>,
)
    ensures
        destinations_errors(destinations, destinations_valid).len() == 0 <==> forall|i: int|
            0 <= i < destinations.len() ==> (#[trigger] destinations[i]).address.len() > 0
                && passed(destinations_valid, i),
    decreases destinations.len(),
{
    if destinations.len() > 0 {
        lemma_destinations_errors(destinations.drop_last(), destinations_valid);
        assert(forall|i: int|
            0 <= i < destinations.len() - 1 ==> destinations.drop_last()[i]
                == #[trigger] destinations[i]);
        let last = destinations.len() - 1;
        if destinations_errors(destinations, destinations_valid).len() == 0 {
            assert(destinations[last].address.len() > 0 && passed(destinations_valid, last));
        }
    }
}

/// Nothing is wrong with a verifier exactly if everything that is asked of
/// it holds.
pub proof fn lemma_verifier_valid(verifier: VerifierDetailView)
    ensures
        verifier_valid(verifier) == verifier_sound(verifier),
{
    reveal(verifier_valid);
    let checks = true_verifier_checks(verifier);
    lemma_destinations_errors(verifier.fee_destinations, checks.destinations_valid);
    if verifier_valid(verifier) {
        assert forall|i: int| 0 <= i < verifier.fee_destinations.len() implies (
        #[trigger] verifier.fee_destinations[i]).address.len() > 0 && valid_address(
            verifier.fee_destinations[i].address,
        ) by {
            assert(passed(checks.destinations_valid, i));
        }
    }
    if verifier_sound(verifier) {
        assert forall|i: int| 0 <= i < verifier.fee_destinations.len() implies (
        #[trigger] verifier.fee_destinations[i]).address.len() > 0 && passed(
            checks.destinations_valid,
            i,
        ) by {}
    }
}

/// Nothing is wrong with the verifiers exactly if nothing is wrong with any
/// of them.
pub proof fn lemma_verifiers_errors(
    verifiers: Seq<VerifierDetailView>,
    checks: Seq<VerifierChecksView>,
)
    ensures
        verifiers_errors(verifiers, checks).len() == 0 <==> forall|i: int|
            0 <= i < verifiers.len() ==> verifier_errors(
                #[trigger] verifiers[i],
                checks_at(checks, i),
            ).len() == 0,
    decreases verifiers.len(),
{
    if verifiers.len() > 0 {
        lemma_verifiers_errors(verifiers.drop_last(), checks);
        assert(forall|i: int|
            0 <= i < verifiers.len() - 1 ==> verifiers.drop_last()[i] == #[trigger] verifiers[i]);
        let last = verifiers.len() - 1;
        if verifiers_errors(verifiers, checks).len() == 0 {
            assert(verifier_errors(verifiers[last], checks_at(checks, last)).len() == 0);
        }
    }
}

/// Nothing is wrong with an asset definition exactly if everything that is
/// asked of it holds.
pub proof fn lemma_definition_valid(definition: AssetDefinitionView)
    ensures
        definition_valid(definition) == definition_sound(definition),
{
    reveal(definition_valid);
    reveal(verifier_valid);
    let checks = true_definition_checks(definition);
    lemma_verifiers_errors(definition.verifiers, checks.verifiers);
    assert forall|i: int| 0 <= i < definition.verifiers.len() implies checks_at(
        checks.verifiers,
        i,
    ) == true_verifier_checks(#[trigger] definition.verifiers[i]) by {}
    if definition_valid(definition) {
        assert forall|i: int| 0 <= i < definition.verifiers.len() implies verifier_valid(
            #[trigger] definition.verifiers[i],
        ) by {
            assert(checks_at(checks.verifiers, i) == true_verifier_checks(definition.verifiers[i]));
        }
    }
    if definition_sound(definition) {
        assert forall|i: int| 0 <= i < definition.verifiers.len() implies verifier_errors(
            #[trigger] definition.verifiers[i],
            checks_at(checks.verifiers, i),
        ).len() == 0 by {
            assert(verifier_valid(definition.verifiers[i]));
            assert(checks_at(checks.verifiers, i) == true_verifier_checks(definition.verifiers[i]));
        }
    }
}

/// What a list of complaints amounts to: nothing if it is empty, else one
/// error that carries them all.
pub open spec fn fields_verdict(message_type: Seq<char>, invalid_fields: Seq<Seq<char>>) -> Result<
    (),
    ContractErrorView,
> {
    if invalid_fields.len() == 0 {
        Ok(())
    } else {
        Err(ContractErrorView::InvalidMessageFields { message_type, invalid_fields })
    }
}

/// Turns a list of complaints into a result.
pub fn check_fields(message_type: &str, invalid_fields: Vec<String>) -> (r: Result<
    (),
    ContractError,
>)
    ensures
        verdict(r) == fields_verdict(message_type@, texts(invalid_fields@)),
{
    if invalid_fields.len() == 0 {
        Ok(())
    } else {
        Err(
            ContractError::InvalidMessageFields {
                message_type: String::from_str(message_type),
                invalid_fields,
            },
        )
    }
}

/// Appends what is wrong with an address.
fn push_address_errors(
    errors: &mut Vec<String>,
    address: &String,
    address_valid: bool,
    blank: &str,
    invalid: &str,
)
    ensures
        texts(final(errors)@) == texts(old(errors)@) + address_errors(
            address@,
            address_valid,
            blank@,
            invalid@,
        ),
{
    if address.as_str().is_empty() {
        push_text(errors, String::from_str(blank));
        assert(texts(errors@) =~= texts(old(errors)@) + seq![blank@]);
    } else if !address_valid {
        push_text(errors, String::from_str(invalid));
        assert(texts(errors@) =~= texts(old(errors)@) + seq![invalid@]);
    } else {
        assert(texts(errors@) =~= texts(old(errors)@) + Seq::<Seq<char>>::empty());
    }
}

/// Appends one message if the condition holds.
fn push_complaint(errors: &mut Vec<String>, condition: bool, message: &str)
    ensures
        texts(final(errors)@) == texts(old(errors)@) + complaint(condition, message@),
{
    if condition {
        push_text(errors, String::from_str(message));
        assert(texts(errors@) =~= texts(old(errors)@) + seq![message@]);
    } else {
        assert(texts(errors@) =~= texts(old(errors)@) + Seq::<Seq<char>>::empty());
    }
}

/// Whether the amounts of the destinations add up to `fee_amount`.
fn fees_add_up(destinations: &Vec<FeeDestination>, fee_amount: u128) -> (r: bool)
    ensures
        r == (fee_total(destinations.deep_view()) == fee_amount as nat),
{
    let mut sum: u128 = 0;
    let mut i: usize = 0;
    while i < destinations.len()
        invariant
            i <= destinations@.len(),
            sum as nat == fee_total(destinations.deep_view().take(i as int)),
        decreases destinations@.len() - i,
    {
        let ghost all = destinations.deep_view();
        proof {
            assert(all.take(i + 1).drop_last() =~= all.take(i as int));
            assert(all.take(i + 1).last() == destinations@[i as int]@);
        }
        match sum.checked_add(destinations[i].fee_amount) {
            Some(next) => {
                sum = next;
            },
            None => {
                proof {
                    lemma_fee_total_prefix(all, i + 1);
                }
                return false;
            },
        }
        i = i + 1;
    }
    proof {
        assert(destinations.deep_view().take(i as int) =~= destinations.deep_view());
    }
    sum == fee_amount
}

/// The amounts of the first destinations add up to no more than those of
/// all.
pub proof fn lemma_fee_total_prefix(destinations: Seq<FeeDestinationView>, n: int)
    requires
        0 <= n <= destinations.len(),
    ensures
        fee_total(destinations.take(n)) <= fee_total(destinations),
    decreases destinations.len(),
{
    if n == destinations.len() {
        assert(destinations.take(n) =~= destinations);
    } else {
        lemma_fee_total_prefix(destinations.drop_last(), n);
        assert(destinations.drop_last().take(n) =~= destinations.take(n));
    }
}

/// The address of a destination.
fn destination_address(destination: &FeeDestination) -> (key: &String)
    ensures
        key@ == destination.address@,
{
    &destination.address
}

/// The address of a verifier.
fn verifier_address(verifier: &VerifierDetail) -> (key: &String)
    ensures
        key@ == verifier.address@,
{
    &verifier.address
}

/// Whether no two destinations share an address.
fn destinations_distinct(destinations: &Vec<FeeDestination>) -> (r: bool)
    ensures
        r == destination_addresses(destinations.deep_view()).no_duplicates(),
{
    let count = distinct_count_by_property(destinations.as_slice(), destination_address);
    proof {
        let selector = destination_address;
        let keys = choose|keys: Seq<&String>|
            {
                &&& keys.len() == destinations@.len()
                &&& forall|i: int|
                    0 <= i < destinations@.len() ==> call_ensures(
                        selector,
                        (&destinations@[i],),
                        #[trigger] keys[i],
                    )
                &&& count == key_texts(keys).to_set().len()
            };
        let addresses = destination_addresses(destinations.deep_view());
        assert(key_texts(keys) =~= addresses);
        if addresses.no_duplicates() {
            addresses.unique_seq_to_set();
        }
        if addresses.to_set().len() == addresses.len() {
            addresses.lemma_no_dup_set_cardinality();
        }
    }
    count == destinations.len()
}

/// Whether no two verifiers share an address.
fn verifiers_distinct(verifiers: &Vec<VerifierDetail>) -> (r: bool)
    ensures
        r == verifier_addresses(verifiers.deep_view()).no_duplicates(),
{
    let count = distinct_count_by_property(verifiers.as_slice(), verifier_address);
    proof {
        let selector = verifier_address;
        let keys = choose|keys: Seq<&String>|
            {
                &&& keys.len() == verifiers@.len()
                &&& forall|i: int|
                    0 <= i < verifiers@.len() ==> call_ensures(
                        selector,
                        (&verifiers@[i],),
                        #[trigger] keys[i],
                    )
                &&& count == key_texts(keys).to_set().len()
            };
        let addresses = verifier_addresses(verifiers.deep_view());
        assert(key_texts(keys) =~= addresses);
        if addresses.no_duplicates() {
            addresses.unique_seq_to_set();
        }
        if addresses.to_set().len() == addresses.len() {
            addresses.lemma_no_dup_set_cardinality();
        }
    }
    count == verifiers.len()
}

/// Finds out which addresses of a verifier are valid bech32.
pub fn check_verifier_addresses(verifier: &VerifierDetail) -> (r: VerifierChecks)
    ensures
        r@ == true_verifier_checks(verifier@),
{
    let address_valid = validate_address(verifier.address.as_str()).is_ok();
    let mut destinations_valid: Vec<bool> = Vec::new();
    let mut i: usize = 0;
    while i < verifier.fee_destinations.len()
        invariant
            i <= verifier.fee_destinations@.len(),
            destinations_valid@.len() == i,
            forall|j: int|
                0 <= j < i ==> destinations_valid@[j] == valid_address(
                    #[trigger] verifier.fee_destinations@[j].address@,
                ),
        decreases verifier.fee_destinations@.len() - i,
    {
        let valid = validate_address(verifier.fee_destinations[i].address.as_str()).is_ok();
        destinations_valid.push(valid);
        i = i + 1;
    }
    let r = VerifierChecks { address_valid, destinations_valid };
    assert(r@.destinations_valid =~= true_verifier_checks(verifier@).destinations_valid);
    r
}

/// Finds out which addresses of an asset definition are valid bech32.
pub fn check_definition_addresses(definition: &AssetDefinition) -> (r: DefinitionChecks)
    ensures
        r@ == true_definition_checks(definition@),
{
    let scope_spec_valid = validate_address(definition.scope_spec_address.as_str()).is_ok();
    let mut verifiers: Vec<VerifierChecks> = Vec::new();
    let mut i: usize = 0;
    while i < definition.verifiers.len()
        invariant
            i <= definition.verifiers@.len(),
            verifiers@.len() == i,
            forall|j: int|
                0 <= j < i ==> (#[trigger] verifiers@[j])@ == true_verifier_checks(
                    definition.verifiers@[j]@,
                ),
        decreases definition.verifiers@.len() - i,
    {
        let checks = check_verifier_addresses(&definition.verifiers[i]);
        verifiers.push(checks);
        i = i + 1;
    }
    let r = DefinitionChecks { scope_spec_valid, verifiers };
    assert(r@.verifiers =~= true_definition_checks(definition@).verifiers);
    r
}

/// Lists what is wrong with a verifier, given which of its addresses are
/// valid bech32.
pub fn verifier_field_errors(verifier: &VerifierDetail, checks: &VerifierChecks) -> (r: Vec<String>)
    ensures
        texts(r@) == verifier_errors(verifier@, checks@),
{
    let mut errors: Vec<String> = Vec::new();
    assert(texts(errors@) =~= Seq::<Seq<char>>::empty());
    push_address_errors(
        &mut errors,
        &verifier.address,
        checks.address_valid,
        BLANK_VERIFIER_ADDRESS,
        INVALID_VERIFIER_ADDRESS,
    );
    push_complaint(&mut errors, verifier.fee_amount > verifier.onboarding_cost, EXCESSIVE_FEE);
    push_complaint(
        &mut errors,
        !fees_add_up(&verifier.fee_destinations, verifier.fee_amount),
        UNBALANCED_FEE,
    );
    push_complaint(
        &mut errors,
        !destinations_distinct(&verifier.fee_destinations),
        REPEATED_DESTINATION,
    );
    let ghost head = texts(errors@);
    let ghost destinations = verifier.fee_destinations.deep_view();
    let mut i: usize = 0;
    assert(destinations.take(0) =~= Seq::<FeeDestinationView>::empty());
    assert(texts(errors@) =~= head + Seq::<Seq<char>>::empty());
    while i < verifier.fee_destinations.len()
        invariant
            i <= verifier.fee_destinations@.len(),
            destinations == verifier.fee_destinations.deep_view(),
            texts(errors@) == head + destinations_errors(
                destinations.take(i as int),
                checks@.destinations_valid,
            ),
        decreases verifier.fee_destinations@.len() - i,
    {
        let valid = i < checks.destinations_valid.len() && checks.destinations_valid[i];
        let ghost before = texts(errors@);
        push_address_errors(
            &mut errors,
            &verifier.fee_destinations[i].address,
            valid,
            BLANK_DESTINATION_ADDRESS,
            INVALID_DESTINATION_ADDRESS,
        );
        proof {
            assert(destinations.take(i + 1).drop_last() =~= destinations.take(i as int));
            assert(destinations.take(i + 1).last() == verifier.fee_destinations@[i as int]@);
            assert(texts(errors@) =~= head + destinations_errors(
                destinations.take(i + 1),
                checks@.destinations_valid,
            ));
        }
        i = i + 1;
    }
    proof {
        assert(destinations.take(i as int) =~= destinations);
    }
    errors
}

/// Lists what is wrong with an asset definition, given which of its
/// addresses are valid bech32.
pub fn definition_field_errors(definition: &AssetDefinition, checks: &DefinitionChecks) -> (r: Vec<
    String,
>)
    ensures
        texts(r@) == definition_errors(definition@, checks@),
{
    let mut errors: Vec<String> = Vec::new();
    assert(texts(errors@) =~= Seq::<Seq<char>>::empty());
    push_complaint(&mut errors, definition.asset_type.as_str().is_empty(), BLANK_ASSET_TYPE);
    push_address_errors(
        &mut errors,
        &definition.scope_spec_address,
        checks.scope_spec_valid,
        BLANK_SCOPE_SPEC,
        INVALID_SCOPE_SPEC,
    );
    push_complaint(&mut errors, definition.verifiers.len() == 0, NO_VERIFIERS);
    push_complaint(&mut errors, !verifiers_distinct(&definition.verifiers), REPEATED_VERIFIER);
    let ghost head = texts(errors@);
    let ghost verifiers = definition.verifiers.deep_view();
    let mut i: usize = 0;
    assert(verifiers.take(0) =~= Seq::<VerifierDetailView>::empty());
    assert(texts(errors@) =~= head + Seq::<Seq<char>>::empty());
    while i < definition.verifiers.len()
        invariant
            i <= definition.verifiers@.len(),
            verifiers == definition.verifiers.deep_view(),
            texts(errors@) == head + verifiers_errors(verifiers.take(i as int), checks@.verifiers),
        decreases definition.verifiers@.len() - i,
    {
        let more = if i < checks.verifiers.len() {
            verifier_field_errors(&definition.verifiers[i], &checks.verifiers[i])
        } else {
            let missing = VerifierChecks { address_valid: false, destinations_valid: Vec::new() };
            verifier_field_errors(&definition.verifiers[i], &missing)
        };
        append_texts(&mut errors, more);
        proof {
            assert(verifiers.take(i + 1).drop_last() =~= verifiers.take(i as int));
            assert(verifiers.take(i + 1).last() == definition.verifiers@[i as int]@);
            assert(texts(errors@) =~= head + verifiers_errors(
                verifiers.take(i + 1),
                checks@.verifiers,
            ));
        }
        i = i + 1;
    }
    proof {
        assert(verifiers.take(i as int) =~= verifiers);
    }
    errors
}

/// Lists what is wrong with a verifier.
pub fn validate_verifier_internal(verifier: &VerifierDetail) -> (r: Vec<String>)
    ensures
        texts(r@) == verifier_errors(verifier@, true_verifier_checks(verifier@)),
        (texts(r@).len() == 0) == verifier_valid(verifier@),
{
    proof {
        reveal(verifier_valid);
    }
    let checks = check_verifier_addresses(verifier);
    verifier_field_errors(verifier, &checks)
}

/// Lists what is wrong with an asset definition.
pub fn validate_asset_definition_internal(definition: &AssetDefinition) -> (r: Vec<String>)
    ensures
        texts(r@) == definition_errors(definition@, true_definition_checks(definition@)),
        (texts(r@).len() == 0) == definition_valid(definition@),
{
    proof {
        reveal(definition_valid);
    }
    let checks = check_definition_addresses(definition);
    definition_field_errors(definition, &checks)
}

/// Accepts a verifier with which nothing is wrong.
pub fn validate_verifier(verifier: &VerifierDetail) -> (r: Result<(), ContractError>)
    ensures
        verdict(r) == fields_verdict(
            VERIFIER_MESSAGE@,
            verifier_errors(verifier@, true_verifier_checks(verifier@)),
        ),
        r is Ok <==> verifier_valid(verifier@),
{
    check_fields(VERIFIER_MESSAGE, validate_verifier_internal(verifier))
}

/// Accepts a verifier with which nothing is wrong, if nothing was found
/// wrong before either. What was found before is reported first.
pub fn validate_verifier_with_provided_errors(
    verifier: &VerifierDetail,
    provided_errors: Option<Vec<String>>,
) -> (r: Result<(), ContractError>)
    ensures
        verdict(r) == fields_verdict(
            VERIFIER_MESSAGE@,
            provided_texts(provided_errors) + verifier_errors(
                verifier@,
                true_verifier_checks(verifier@),
            ),
        ),
{
    let mut errors: Vec<String> = match provided_errors {
        Some(provided) => provided,
        None => Vec::new(),
    };
    assert(texts(errors@) =~= provided_texts(provided_errors));
    append_texts(&mut errors, validate_verifier_internal(verifier));
    check_fields(VERIFIER_MESSAGE, errors)
}

/// The complaints that were handed in, if any.
pub open spec fn provided_texts(provided_errors: Option<Vec<String>>) -> Seq<Seq<char>> {
    match provided_errors {
        Some(provided) => texts(provided@),
        None => Seq::empty(),
    }
}

/// Accepts an asset definition with which nothing is wrong.
pub fn validate_asset_definition(definition: &AssetDefinition) -> (r: Result<(), ContractError>)
    ensures
        verdict(r) == fields_verdict(
            DEFINITION_MESSAGE@,
            definition_errors(definition@, true_definition_checks(definition@)),
        ),
        r is Ok <==> definition_valid(definition@),
{
    check_fields(DEFINITION_MESSAGE, validate_asset_definition_internal(definition))
}

/// What is wrong with an asset definition as a message carries it.
#[verifier::opaque]
pub open spec fn input_errors(input: AssetDefinitionInput) -> Seq<Seq<char>> {
    definition_errors(input.definition(), true_definition_checks(input.definition()))
}

/// What is wrong with the definitions that a contract is to start with,
/// one by one, in their order.
pub open spec fn inputs_errors(inputs: Seq<AssetDefinitionInput>) -> Seq<Seq<char>>
    decreases inputs.len(),
{
    if inputs.len() == 0 {
        Seq::empty()
    } else {
        inputs_errors(inputs.drop_last()) + input_errors(inputs.last())
    }
}

/// What is wrong with what a contract is created with: a blank base name,
/// and then each definition.
pub open spec fn init_errors(msg: InitMsg) -> Seq<Seq<char>> {
    complaint(msg.base_contract_name@.len() == 0, BLANK_BASE_NAME@) + inputs_errors(
        msg.asset_definitions@,
    )
}

/// Nothing is wrong with the definitions exactly if none of them has
/// anything wrong with it.
pub proof fn lemma_inputs_errors(inputs: Seq<AssetDefinitionInput>)
    ensures
        inputs_errors(inputs).len() == 0 <==> forall|i: int|
            0 <= i < inputs.len() ==> input_errors(#[trigger] inputs[i]).len() == 0,
    decreases inputs.len(),
{
    if inputs.len() > 0 {
        lemma_inputs_errors(inputs.drop_last());
        assert(forall|i: int|
            0 <= i < inputs.len() - 1 ==> inputs.drop_last()[i] == #[trigger] inputs[i]);
        let last = inputs.len() - 1;
        if inputs_errors(inputs).len() == 0 {
            assert(input_errors(inputs[last]).len() == 0);
        }
    }
}

/// Nothing is wrong with an asset definition as a message carries it
/// exactly if nothing is wrong with the definition that it describes.
pub proof fn lemma_input_errors(input: AssetDefinitionInput)
    ensures
        (input_errors(input).len() == 0) == definition_valid(input.definition()),
        input_errors(input) == definition_errors(
            input.definition(),
            true_definition_checks(input.definition()),
        ),
{
    reveal(input_errors);
    reveal(definition_valid);
}

/// Checks what a contract is created with. Everything that is wrong with
/// it is reported at once.
pub fn validate_init_msg(msg: &InitMsg) -> (r: Result<(), ContractError>)
    ensures
        verdict(r) == fields_verdict(INSTANTIATE_MESSAGE@, init_errors(*msg)),
{
    let mut errors: Vec<String> = Vec::new();
    assert(texts(errors@) =~= Seq::<Seq<char>>::empty());
    push_complaint(&mut errors, msg.base_contract_name.as_str().is_empty(), BLANK_BASE_NAME);
    let ghost head = texts(errors@);
    let ghost inputs = msg.asset_definitions@;
    assert(inputs.take(0) =~= Seq::<AssetDefinitionInput>::empty());
    assert(texts(errors@) =~= head + Seq::<Seq<char>>::empty());
    let mut i: usize = 0;
    while i < msg.asset_definitions.len()
        invariant
            i <= msg.asset_definitions@.len(),
            inputs == msg.asset_definitions@,
            texts(errors@) == head + inputs_errors(inputs.take(i as int)),
        decreases msg.asset_definitions@.len() - i,
    {
        let definition = msg.asset_definitions[i].as_asset_definition();
        let found = validate_asset_definition_internal(&definition);
        proof {
            lemma_input_errors(inputs[i as int]);
        }
        assert(texts(found@) == input_errors(inputs[i as int]));
        append_texts(&mut errors, found);
        proof {
            assert(inputs.take(i + 1).drop_last() =~= inputs.take(i as int));
            assert(inputs.take(i + 1).last() == inputs[i as int]);
            assert(texts(errors@) =~= head + inputs_errors(inputs.take(i + 1)));
        }
        i = i + 1;
    }
    proof {
        assert(inputs.take(i as int) =~= inputs);
    }
    check_fields(INSTANTIATE_MESSAGE, errors)
}

} // verus!
