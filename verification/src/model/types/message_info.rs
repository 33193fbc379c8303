use vstd::prelude::*;
use vstd::string::StringExecFns;

verus! {

/// An amount of one kind of coin.
#[derive(Debug, PartialEq, Eq)]
pub struct Coin {
    /// The kind of coin.
    pub denom: String,
    /// How many of them.
    pub amount: u128,
}

/// What a [`Coin`] stands for.
pub struct CoinView {
    pub denom: Seq<char>,
    pub amount: nat,
}

impl View for Coin {
    type V = CoinView;

    open spec fn view(&self) -> CoinView {
        CoinView { denom: self.denom@, amount: self.amount as nat }
    }
}

impl DeepView for Coin {
    type V = CoinView;

    open spec fn deep_view(&self) -> CoinView {
        self@
    }
}

impl Clone for Coin {
    fn clone(&self) -> (r: Self)
        ensures
            r@ == self@,
    {
        Coin { denom: self.denom.clone(), amount: self.amount }
    }
}

/// An amount of a kind of coin.
pub fn coin(amount: u128, denom: &str) -> (r: Coin)
    ensures
        r@ == (CoinView { denom: denom@, amount: amount as nat }),
{
    Coin { denom: String::from_str(denom), amount }
}

/// Who sent a message, and the coins that came with it.
#[derive(Debug, PartialEq, Eq)]
pub struct MessageInfo {
    /// The bech32 address of the sender.
    pub sender: String,
    /// The coins attached to the message.
    pub funds: Vec<Coin>,
}

/// What a [`MessageInfo`] stands for.
pub struct MessageInfoView {
    pub sender: Seq<char>,
    pub funds: Seq<CoinView>,
}

impl View for MessageInfo {
    type V = MessageInfoView;

    open spec fn view(&self) -> MessageInfoView {
        MessageInfoView { sender: self.sender@, funds: self.funds.deep_view() }
    }
}

impl Clone for MessageInfo {
    fn clone(&self) -> (r: Self)
        ensures
            r@ == self@,
    {
        let funds = self.funds.clone();
        assert(funds.deep_view() =~= self.funds.deep_view());
        MessageInfo { sender: self.sender.clone(), funds }
    }
}

impl MessageInfo {
    /// A message from `sender` with `funds` attached.
    pub fn new(sender: &str, funds: Vec<Coin>) -> (r: Self)
        ensures
            r@ == (MessageInfoView { sender: sender@, funds: funds.deep_view() }),
    {
        MessageInfo { sender: String::from_str(sender), funds }
    }
}

} // verus!
