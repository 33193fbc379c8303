use crate::model::error::{verdict, ContractError, ContractErrorView};
use crate::model::state::{ContractStorage, ContractStorageView};
use crate::model::types::message_info::{MessageInfo, MessageInfoView};
use vstd::prelude::*;
use vstd::string::StringExecFns;

verus! {

/// What the error says.
pub const ADMIN_REQUIRED: &'static str = "admin required";

/// What the error says.
pub const NO_FUNDS_ALLOWED: &'static str = "route requires no funds be present";

/// What is said to a sender that is not the admin.
pub open spec fn admin_required() -> ContractErrorView {
    ContractErrorView::Unauthorized { explanation: ADMIN_REQUIRED@ }
}

/// What is said of coins that came with a command that takes none.
pub open spec fn no_funds_allowed() -> ContractErrorView {
    ContractErrorView::InvalidFunds(NO_FUNDS_ALLOWED@)
}

/// Whether a command for the admin may go ahead: the sender must be the
/// admin, and no coins may come with it. The sender is looked at first.
pub open spec fn admin_route_verdict(storage: ContractStorageView, info: MessageInfoView) -> Result<
    (),
    ContractErrorView,
> {
    if info.sender != storage.state.admin {
        Err(admin_required())
    } else if info.funds.len() != 0 {
        Err(no_funds_allowed())
    } else {
        Ok(())
    }
}

/// Accepts the admin as sender and nobody else.
pub fn check_admin_only(storage: &ContractStorage, info: &MessageInfo) -> (r: Result<
    (),
    ContractError,
>)
    ensures
        verdict(r) == if info@.sender != storage@.state.admin {
            Err(admin_required())
        } else {
            Ok(())
        },
{
    if info.sender != storage.state.admin {
        Err(ContractError::Unauthorized { explanation: String::from_str(ADMIN_REQUIRED) })
    } else {
        Ok(())
    }
}

/// Accepts a message that no coins came with.
pub fn check_funds_are_empty(info: &MessageInfo) -> (r: Result<(), ContractError>)
    ensures
        verdict(r) == if info@.funds.len() != 0 {
            Err(no_funds_allowed())
        } else {
            Ok(())
        },
{
    if info.funds.len() != 0 {
        Err(ContractError::InvalidFunds(String::from_str(NO_FUNDS_ALLOWED)))
    } else {
        Ok(())
    }
}

/// Accepts a command for the admin: the sender must be the admin, and no
/// coins may come with it.
pub fn check_admin_route(storage: &ContractStorage, info: &MessageInfo) -> (r: Result<
    (),
    ContractError,
>)
    ensures
        verdict(r) == admin_route_verdict(storage@, info@),
{
    match check_admin_only(storage, info) {
        Ok(_) => check_funds_are_empty(info),
        Err(error) => Err(error),
    }
}

} // verus!
