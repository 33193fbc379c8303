use crate::model::state::{ContractStorage, State};
use vstd::prelude::*;

verus! {

/// A copy of the contract's configuration.
pub fn query_state(storage: &ContractStorage) -> (r: State)
    ensures
        r@ == storage@.state,
{
    storage.state.clone()
}

} // verus!
