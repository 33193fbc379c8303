use crate::model::error::{ContractError, ContractErrorView};
use crate::model::state::ContractStorageView;
use crate::model::types::response::{Response, ResponseView};
use vstd::prelude::*;

verus! {

/// The result of anything that can fail in this crate.
pub type AssetResult<T> = Result<T, ContractError>;

/// The result of a command.
pub type EntryPointResponse = Result<Response, ContractError>;

/// What a command on the storage is to come to: the storage it leaves and
/// the response it gives, or the reason why it does nothing.
pub type Commitment = Result<(ContractStorageView, ResponseView), ContractErrorView>;

/// Whether a command did what it was to do: on success it gave the response
/// and left the storage as told, on failure it gave the reason and left the
/// storage as it was.
pub open spec fn committed(
    before: ContractStorageView,
    after: ContractStorageView,
    r: Result<Response, ContractError>,
    expected: Commitment,
) -> bool {
    match expected {
        Ok((storage, response)) => r matches Ok(given) && given@ == response && after == storage,
        Err(error) => r matches Err(given) && given@ == error && after == before,
    }
}

/// Whether a command that leaves the storage alone did what it was to do.
pub open spec fn answered(
    r: Result<Response, ContractError>,
    expected: Result<ResponseView, ContractErrorView>,
) -> bool {
    match expected {
        Ok(response) => r matches Ok(given) && given@ == response,
        Err(error) => r matches Err(given) && given@ == error,
    }
}

} // verus!
