use crate::model::error::{ContractError, ContractErrorView};
use crate::model::msg::ExecuteMsg;
use crate::model::state::{ContractStorage, ContractStorageView};
use crate::model::types::message_info::{MessageInfo, MessageInfoView};
use crate::model::types::response::{ContractMessage, ContractMessageView, Response, ResponseView};
use crate::util::aliases::answered;
use crate::util::constants::{ASSET_EVENT_TYPE_KEY, NEW_VALUE_KEY};
use crate::util::contract_helpers::{admin_route_verdict, check_admin_route};
use crate::util::event_attributes::{EventAttributes, EventType};
use vstd::prelude::*;
use vstd::string::StringExecFns;

verus! {

/// The message type that is named where a message of this kind is turned down.
pub const BIND_ALIAS_MESSAGE: &'static str = "ExecuteMsg::BindContractAlias";

/// The command to bind one more name to the contract.
#[derive(Debug, Clone, PartialEq, Eq)]
pub struct BindContractAliasV1 {
    /// The name to bind.
    pub alias_name: String,
}

impl BindContractAliasV1 {
    /// The command to bind this name.
    pub fn new(alias_name: &str) -> (r: Self)
        ensures
            r.alias_name@ == alias_name@,
    {
        BindContractAliasV1 { alias_name: String::from_str(alias_name) }
    }

    /// The command that a message holds, if the message is of this kind.
    pub fn from_execute_msg(msg: ExecuteMsg) -> (r: Result<BindContractAliasV1, ContractError>)
        ensures
            match msg {
                ExecuteMsg::BindContractAlias { alias_name } => r == Ok::<
                    BindContractAliasV1,
                    ContractError,
                >(BindContractAliasV1 { alias_name }),
                _ => r matches Err(error) && error@ == (ContractErrorView::InvalidMessageType {
                    expected_message_type: BIND_ALIAS_MESSAGE@,
                }),
            },
    {
        match msg {
            ExecuteMsg::BindContractAlias { alias_name } => Ok(BindContractAliasV1 { alias_name }),
            _ => Err(
                ContractError::InvalidMessageType {
                    expected_message_type: String::from_str(BIND_ALIAS_MESSAGE),
                },
            ),
        }
    }
}

/// What binding an alias is to come to. The admin must send the command,
/// without coins. Then the ledger is asked to bind the name.
pub open spec fn bind_contract_alias_outcome(
    storage: ContractStorageView,
    info: MessageInfoView,
    alias_name: Seq<char>,
) -> Result<ResponseView, ContractErrorView> {
    match admin_route_verdict(storage, info) {
        Err(error) => Err(error),
        Ok(_) => Ok(
            ResponseView {
                attributes: seq![
                    (ASSET_EVENT_TYPE_KEY@, EventType::BindContractAlias.name()),
                    (NEW_VALUE_KEY@, alias_name),
                ],
                messages: seq![ContractMessageView::BindName { name: alias_name }],
            },
        ),
    }
}

/// Binds one more name to the contract, for the admin.
pub fn bind_contract_alias(storage: &ContractStorage, info: &MessageInfo, msg: BindContractAliasV1)
    -> (r: Result<Response, ContractError>)
    ensures
        answered(r, bind_contract_alias_outcome(storage@, info@, msg.alias_name@)),
{
    match check_admin_route(storage, info) {
        Ok(_) => {},
        Err(error) => {
            return Err(error);
        },
    }
    let attributes = EventAttributes::new(EventType::BindContractAlias).set_new_value(
        msg.alias_name.as_str(),
    );
    let mut messages: Vec<ContractMessage> = Vec::new();
    messages.push(ContractMessage::BindName { name: msg.alias_name });
    let response = Response::new().add_attributes(attributes.attributes).add_messages(messages);
    proof {
        assert(response@.attributes =~= seq![
            (ASSET_EVENT_TYPE_KEY@, EventType::BindContractAlias.name()),
            (NEW_VALUE_KEY@, msg.alias_name@),
        ]);
        assert(response@.messages =~= seq![
            ContractMessageView::BindName { name: msg.alias_name@ },
        ]);
    }
    Ok(response)
}

} // verus!
