use crate::model::asset::{AssetDefinition, AssetDefinitionView, VerifierDetail, VerifierDetailView};
use crate::model::error::{outcome, ContractError, ContractErrorView};
use crate::util::search::{
    as_position,
    first_position,
    lemma_first_position_found,
    lemma_first_position_none,
};
use crate::util::text::{lowercase, lowercased};
use crate::validation::validate_init_msg::definition_valid;
use vstd::prelude::*;
use vstd::string::StringExecFns;

verus! {

/// How the contract is set up.
#[derive(Debug, PartialEq, Eq)]
pub struct State {
    /// The name under which the contract writes its attributes.
    pub base_contract_name: String,
    /// The bech32 address of the account that may change definitions.
    pub admin: String,
    /// Whether the contract runs under test.
    pub is_test: bool,
}

/// What a [`State`] stands for.
pub struct StateView {
    pub base_contract_name: Seq<char>,
    pub admin: Seq<char>,
    pub is_test: bool,
}

impl View for State {
    type V = StateView;

    open spec fn view(&self) -> StateView {
        StateView {
            base_contract_name: self.base_contract_name@,
            admin: self.admin@,
            is_test: self.is_test,
        }
    }
}

impl Clone for State {
    fn clone(&self) -> (r: Self)
        ensures
            r@ == self@,
    {
        State {
            base_contract_name: self.base_contract_name.clone(),
            admin: self.admin.clone(),
            is_test: self.is_test,
        }
    }
}

impl State {
    /// A configuration with the given values.
    pub fn new(base_contract_name: &str, admin: &str, is_test: bool) -> (r: Self)
        ensures
            r@ == (StateView { base_contract_name: base_contract_name@, admin: admin@, is_test }),
    {
        State {
            base_contract_name: String::from_str(base_contract_name),
            admin: String::from_str(admin),
            is_test,
        }
    }
}

/// What the contract keeps: its configuration and the asset definitions.
#[derive(Debug, PartialEq, Eq)]
pub struct ContractStorage {
    /// The configuration.
    pub state: State,
    /// The asset definitions, in the order in which they were added.
    pub asset_definitions: Vec<AssetDefinition>,
}

/// What a [`ContractStorage`] stands for.
pub struct ContractStorageView {
    pub state: StateView,
    pub asset_definitions: Seq<AssetDefinitionView>,
}

impl View for ContractStorage {
    type V = ContractStorageView;

    open spec fn view(&self) -> ContractStorageView {
        ContractStorageView {
            state: self.state@,
            asset_definitions: self.asset_definitions.deep_view(),
        }
    }
}

impl Clone for ContractStorage {
    fn clone(&self) -> (r: Self)
        ensures
            r@ == self@,
    {
        let asset_definitions = self.asset_definitions.clone();
        assert(asset_definitions.deep_view() =~= self.asset_definitions.deep_view());
        ContractStorage { state: self.state.clone(), asset_definitions }
    }
}

/// Whether no two definitions have types that differ in letter case at
/// most, and no two have the same scope specification.
pub open spec fn definitions_distinct(definitions: Seq<AssetDefinitionView>) -> bool {
    &&& forall|i: int, j: int|
        0 <= i < j < definitions.len() ==> (#[trigger] definitions[i]).key()
            != (#[trigger] definitions[j]).key()
    &&& forall|i: int, j: int|
        0 <= i < j < definitions.len() ==> (#[trigger] definitions[i]).scope_spec_address
            != (#[trigger] definitions[j]).scope_spec_address
}

impl ContractStorageView {
    /// Whether the definitions are what the commands keep them to be:
    /// distinct, and nothing wrong with any of them.
    pub open spec fn wf(self) -> bool {
        &&& definitions_distinct(self.asset_definitions)
        &&& forall|i: int|
            0 <= i < self.asset_definitions.len() ==> definition_valid(
                #[trigger] self.asset_definitions[i],
            )
    }
}

/// The definitions that are stored under a key.
pub open spec fn has_key(key: Seq<char>) -> spec_fn(AssetDefinitionView) -> bool {
    |definition: AssetDefinitionView| definition.key() == key
}

/// The definitions of a scope specification.
pub open spec fn has_scope_spec(scope_spec_address: Seq<char>) -> spec_fn(
    AssetDefinitionView,
) -> bool {
    |definition: AssetDefinitionView| definition.scope_spec_address == scope_spec_address
}

/// Where the definition of an asset type is, whatever the letter case in
/// which the type is written.
pub open spec fn type_position(definitions: Seq<AssetDefinitionView>, asset_type: Seq<char>)
    -> Option<int> {
    first_position(definitions, has_key(lowercased(asset_type)))
}

/// Where the definition of a scope specification is.
pub open spec fn scope_spec_position(
    definitions: Seq<AssetDefinitionView>,
    scope_spec_address: Seq<char>,
) -> Option<int> {
    first_position(definitions, has_scope_spec(scope_spec_address))
}

/// Whether a definition other than the one at `position` has the scope
/// specification.
pub open spec fn scope_spec_taken_elsewhere(
    definitions: Seq<AssetDefinitionView>,
    scope_spec_address: Seq<char>,
    position: int,
) -> bool {
    exists|j: int|
        0 <= j < definitions.len() && j != position && (#[trigger] definitions[j]).scope_spec_address
            == scope_spec_address
}

/// The verifiers at an address.
pub open spec fn has_address(address: Seq<char>) -> spec_fn(VerifierDetailView) -> bool {
    |verifier: VerifierDetailView| verifier.address == address
}

/// Where the verifier at an address is.
pub open spec fn verifier_position(verifiers: Seq<VerifierDetailView>, address: Seq<char>)
    -> Option<int> {
    first_position(verifiers, has_address(address))
}

/// A definition with other verifiers.
pub open spec fn with_verifiers(
    definition: AssetDefinitionView,
    verifiers: Seq<VerifierDetailView>,
) -> AssetDefinitionView {
    AssetDefinitionView {
        asset_type: definition.asset_type,
        scope_spec_address: definition.scope_spec_address,
        verifiers,
        enabled: definition.enabled,
    }
}

/// What the error says.
pub const NO_DEFINITION_FOR_TYPE: &'static str = "no asset definition existed for asset type ";

/// What the error says.
pub const NO_DEFINITION_FOR_SCOPE_SPEC: &'static str =
    "no asset definition existed for scope spec address ";

/// What is said of an asset type that has no definition.
pub open spec fn type_not_found(asset_type: Seq<char>) -> ContractErrorView {
    ContractErrorView::RecordNotFound { explanation: NO_DEFINITION_FOR_TYPE@ + asset_type }
}

/// What is said of a scope specification that has no definition.
pub open spec fn scope_spec_not_found(scope_spec_address: Seq<char>) -> ContractErrorView {
    ContractErrorView::RecordNotFound {
        explanation: NO_DEFINITION_FOR_SCOPE_SPEC@ + scope_spec_address,
    }
}

/// The definition of an asset type, or the complaint that there is none.
pub open spec fn definition_by_type(definitions: Seq<AssetDefinitionView>, asset_type: Seq<char>)
    -> Result<AssetDefinitionView, ContractErrorView> {
    match type_position(definitions, asset_type) {
        Some(position) => Ok(definitions[position]),
        None => Err(type_not_found(asset_type)),
    }
}

/// The definition of a scope specification, or the complaint that there is
/// none.
pub open spec fn definition_by_scope_spec(
    definitions: Seq<AssetDefinitionView>,
    scope_spec_address: Seq<char>,
) -> Result<AssetDefinitionView, ContractErrorView> {
    match scope_spec_position(definitions, scope_spec_address) {
        Some(position) => Ok(definitions[position]),
        None => Err(scope_spec_not_found(scope_spec_address)),
    }
}

/// The definitions after one of them has been replaced by another of the
/// same type: the complaint that the type has no definition, or that the
/// scope specification belongs to another type, or the list with the new
/// definition in the place of the old one.
pub open spec fn replacement_outcome(
    definitions: Seq<AssetDefinitionView>,
    definition: AssetDefinitionView,
) -> Result<Seq<AssetDefinitionView>, ContractErrorView> {
    match type_position(definitions, definition.asset_type) {
        None => Err(type_not_found(definition.asset_type)),
        Some(position) => if scope_spec_taken_elsewhere(
            definitions,
            definition.scope_spec_address,
            position,
        ) {
            Err(ContractErrorView::DuplicateAssetDefinitionProvided)
        } else {
            Ok(definitions.update(position, definition))
        },
    }
}

/// Finds the definition of an asset type.
pub fn position_of_type(definitions: &Vec<AssetDefinition>, asset_type: &str) -> (r: Option<usize>)
    ensures
        as_position(r) == type_position(definitions.deep_view(), asset_type@),
        r matches Some(position) ==> position < definitions@.len(),
{
    let key = lowercase(asset_type);
    let ghost wanted = has_key(lowercased(asset_type@));
    let mut i: usize = 0;
    while i < definitions.len()
        invariant
            i <= definitions@.len(),
            key@ == lowercased(asset_type@),
            wanted == has_key(lowercased(asset_type@)),
            forall|j: int| 0 <= j < i ==> !wanted(#[trigger] definitions.deep_view()[j]),
        decreases definitions@.len() - i,
    {
        let candidate = lowercase(definitions[i].asset_type.as_str());
        if candidate == key {
            proof {
                lemma_first_position_found(definitions.deep_view(), wanted, i as int);
            }
            return Some(i);
        }
        i = i + 1;
    }
    proof {
        lemma_first_position_none(definitions.deep_view(), wanted);
    }
    None
}

/// Finds the definition of a scope specification.
pub fn position_of_scope_spec(definitions: &Vec<AssetDefinition>, scope_spec_address: &str) -> (r:
    Option<usize>)
    ensures
        as_position(r) == scope_spec_position(definitions.deep_view(), scope_spec_address@),
        r matches Some(position) ==> position < definitions@.len(),
{
    let wanted_address = String::from_str(scope_spec_address);
    let ghost wanted = has_scope_spec(scope_spec_address@);
    let mut i: usize = 0;
    while i < definitions.len()
        invariant
            i <= definitions@.len(),
            wanted_address@ == scope_spec_address@,
            wanted == has_scope_spec(scope_spec_address@),
            forall|j: int| 0 <= j < i ==> !wanted(#[trigger] definitions.deep_view()[j]),
        decreases definitions@.len() - i,
    {
        if definitions[i].scope_spec_address == wanted_address {
            proof {
                lemma_first_position_found(definitions.deep_view(), wanted, i as int);
            }
            return Some(i);
        }
        i = i + 1;
    }
    proof {
        lemma_first_position_none(definitions.deep_view(), wanted);
    }
    None
}

/// Whether a definition other than the one at `position` has the scope
/// specification.
pub fn scope_spec_in_use_elsewhere(
    definitions: &Vec<AssetDefinition>,
    scope_spec_address: &str,
    position: usize,
) -> (r: bool)
    ensures
        r == scope_spec_taken_elsewhere(
            definitions.deep_view(),
            scope_spec_address@,
            position as int,
        ),
{
    let wanted_address = String::from_str(scope_spec_address);
    let mut i: usize = 0;
    while i < definitions.len()
        invariant
            i <= definitions@.len(),
            wanted_address@ == scope_spec_address@,
            forall|j: int|
                0 <= j < i && j != position ==> (#[trigger] definitions.deep_view()[
                    j
                ]).scope_spec_address != scope_spec_address@,
        decreases definitions@.len() - i,
    {
        if i != position && definitions[i].scope_spec_address == wanted_address {
            assert(definitions.deep_view()[i as int].scope_spec_address == scope_spec_address@);
            return true;
        }
        i = i + 1;
    }
    false
}

/// Finds the verifier at an address.
pub fn position_of_verifier(verifiers: &Vec<VerifierDetail>, address: &str) -> (r: Option<usize>)
    ensures
        as_position(r) == verifier_position(verifiers.deep_view(), address@),
        r matches Some(position) ==> position < verifiers@.len(),
{
    let wanted_address = String::from_str(address);
    let ghost wanted = has_address(address@);
    let mut i: usize = 0;
    while i < verifiers.len()
        invariant
            i <= verifiers@.len(),
            wanted_address@ == address@,
            wanted == has_address(address@),
            forall|j: int| 0 <= j < i ==> !wanted(#[trigger] verifiers.deep_view()[j]),
        decreases verifiers@.len() - i,
    {
        if verifiers[i].address == wanted_address {
            proof {
                lemma_first_position_found(verifiers.deep_view(), wanted, i as int);
            }
            return Some(i);
        }
        i = i + 1;
    }
    proof {
        lemma_first_position_none(verifiers.deep_view(), wanted);
    }
    None
}

/// What is said of an asset type that has no definition.
pub fn type_not_found_error(asset_type: &str) -> (r: ContractError)
    ensures
        r@ == type_not_found(asset_type@),
{
    ContractError::RecordNotFound {
        explanation: String::from_str(NO_DEFINITION_FOR_TYPE).concat(asset_type),
    }
}

/// A copy of the definition of an asset type, whatever the letter case in
/// which the type is written.
pub fn load_asset_definition_by_type(storage: &ContractStorage, asset_type: &str) -> (r: Result<
    AssetDefinition,
    ContractError,
>)
    ensures
        outcome(r) == definition_by_type(storage@.asset_definitions, asset_type@),
{
    match position_of_type(&storage.asset_definitions, asset_type) {
        Some(position) => Ok(storage.asset_definitions[position].clone()),
        None => Err(type_not_found_error(asset_type)),
    }
}

/// A copy of the definition of a scope specification.
pub fn load_asset_definition_by_scope_spec(
    storage: &ContractStorage,
    scope_spec_address: &str,
) -> (r: Result<AssetDefinition, ContractError>)
    ensures
        outcome(r) == definition_by_scope_spec(storage@.asset_definitions, scope_spec_address@),
{
    match position_of_scope_spec(&storage.asset_definitions, scope_spec_address) {
        Some(position) => Ok(storage.asset_definitions[position].clone()),
        None => Err(
            ContractError::RecordNotFound {
                explanation: String::from_str(NO_DEFINITION_FOR_SCOPE_SPEC).concat(
                    scope_spec_address,
                ),
            },
        ),
    }
}

/// Copies of all definitions, in the order in which they were added.
pub fn list_asset_definitions(storage: &ContractStorage) -> (r: Vec<AssetDefinition>)
    ensures
        r.deep_view() == storage@.asset_definitions,
{
    let r = storage.asset_definitions.clone();
    assert(r.deep_view() =~= storage.asset_definitions.deep_view());
    r
}

/// Puts a definition in the place of the stored definition of the same
/// type. On failure the storage is as it was.
pub fn replace_asset_definition(storage: &mut ContractStorage, definition: &AssetDefinition) -> (r:
    Result<(), ContractError>)
    ensures
        final(storage)@.state == old(storage)@.state,
        match replacement_outcome(old(storage)@.asset_definitions, definition@) {
            Ok(definitions) => r is Ok && final(storage)@.asset_definitions == definitions,
            Err(error) => r matches Err(e) && e@ == error && final(storage)@ == old(storage)@,
        },
{
    let position = match position_of_type(
        &storage.asset_definitions,
        definition.asset_type.as_str(),
    ) {
        Some(position) => position,
        None => {
            return Err(type_not_found_error(definition.asset_type.as_str()));
        },
    };
    if scope_spec_in_use_elsewhere(
        &storage.asset_definitions,
        definition.scope_spec_address.as_str(),
        position,
    ) {
        return Err(ContractError::DuplicateAssetDefinitionProvided);
    }
    let ghost before = storage.asset_definitions.deep_view();
    storage.asset_definitions.set(position, definition.clone());
    assert(storage.asset_definitions.deep_view() =~= before.update(position as int, definition@));
    Ok(())
}

} // verus!
