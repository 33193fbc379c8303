use crate::model::asset::{AssetScopeAttribute, AssetScopeAttributeView};
use vstd::prelude::*;
use vstd::string::StringExecFns;

verus! {

/// A key and a value that describe what a command did.
#[derive(Debug, PartialEq, Eq)]
pub struct Attribute {
    pub key: String,
    pub value: String,
}

impl View for Attribute {
    type V = (Seq<char>, Seq<char>);

    open spec fn view(&self) -> (Seq<char>, Seq<char>) {
        (self.key@, self.value@)
    }
}

impl DeepView for Attribute {
    type V = (Seq<char>, Seq<char>);

    open spec fn deep_view(&self) -> (Seq<char>, Seq<char>) {
        self@
    }
}

impl Clone for Attribute {
    fn clone(&self) -> (r: Self)
        ensures
            r@ == self@,
    {
        Attribute { key: self.key.clone(), value: self.value.clone() }
    }
}

impl Attribute {
    /// The attribute with this key and value.
    pub fn new(key: &str, value: &str) -> (r: Self)
        ensures
            r@ == (key@, value@),
    {
        Attribute { key: String::from_str(key), value: String::from_str(value) }
    }
}

/// What a command asks the ledger to do once it has succeeded.
#[derive(Debug, PartialEq, Eq)]
pub enum ContractMessage {
    /// Write an attribute on the scope at `address`.
    AddAttribute { address: String, name: String, value: AssetScopeAttribute },
    /// Remove the attributes called `name` from the scope at `address`.
    DeleteAttribute { address: String, name: String },
    /// Pay `amount` of `denom` out of the contract's account.
    Send { to_address: String, amount: u128, denom: String },
    /// Bind a name to the contract.
    BindName { name: String },
}

/// What a [`ContractMessage`] stands for.
pub enum ContractMessageView {
    AddAttribute { address: Seq<char>, name: Seq<char>, value: AssetScopeAttributeView },
    DeleteAttribute { address: Seq<char>, name: Seq<char> },
    Send { to_address: Seq<char>, amount: nat, denom: Seq<char> },
    BindName { name: Seq<char> },
}

impl View for ContractMessage {
    type V = ContractMessageView;

    open spec fn view(&self) -> ContractMessageView {
        match *self {
            ContractMessage::AddAttribute {
                address,
                name,
                value,
            } => ContractMessageView::AddAttribute { address: address@, name: name@, value: value@ },
            ContractMessage::DeleteAttribute { address, name } => ContractMessageView::DeleteAttribute {
                address: address@,
                name: name@,
            },
            ContractMessage::Send { to_address, amount, denom } => ContractMessageView::Send {
                to_address: to_address@,
                amount: amount as nat,
                denom: denom@,
            },
            ContractMessage::BindName { name } => ContractMessageView::BindName { name: name@ },
        }
    }
}

impl DeepView for ContractMessage {
    type V = ContractMessageView;

    open spec fn deep_view(&self) -> ContractMessageView {
        self@
    }
}

/// What a command hands back when it succeeds: what it did, and what the
/// ledger is to do.
#[derive(Debug, PartialEq, Eq)]
pub struct Response {
    /// What the command did, as keys and values.
    pub attributes: Vec<Attribute>,
    /// What the ledger is to do, in this order.
    pub messages: Vec<ContractMessage>,
}

/// What a [`Response`] stands for.
pub struct ResponseView {
    pub attributes: Seq<(Seq<char>, Seq<char>)>,
    pub messages: Seq<ContractMessageView>,
}

impl View for Response {
    type V = ResponseView;

    open spec fn view(&self) -> ResponseView {
        ResponseView {
            attributes: self.attributes.deep_view(),
            messages: self.messages.deep_view(),
        }
    }
}

impl Response {
    /// A response that says nothing and asks for nothing.
    pub fn new() -> (r: Self)
        ensures
            r@ == (ResponseView { attributes: Seq::empty(), messages: Seq::empty() }),
    {
        let r = Response { attributes: Vec::new(), messages: Vec::new() };
        assert(r@.attributes =~= Seq::empty());
        assert(r@.messages =~= Seq::empty());
        r
    }

    /// The response with more attributes at the end.
    pub fn add_attributes(self, attributes: Vec<Attribute>) -> (r: Self)
        ensures
            r@.attributes == self@.attributes + attributes.deep_view(),
            r@.messages == self@.messages,
    {
        let mut all = self.attributes;
        let mut more = attributes;
        all.append(&mut more);
        let r = Response { attributes: all, messages: self.messages };
        assert(r@.attributes =~= self@.attributes + attributes.deep_view());
        r
    }

    /// The response with more messages at the end.
    pub fn add_messages(self, messages: Vec<ContractMessage>) -> (r: Self)
        ensures
            r@.attributes == self@.attributes,
            r@.messages == self@.messages + messages.deep_view(),
    {
        let mut all = self.messages;
        let mut more = messages;
        all.append(&mut more);
        let r = Response { attributes: self.attributes, messages: all };
        assert(r@.messages =~= self@.messages + messages.deep_view());
        r
    }
}

} // verus!
