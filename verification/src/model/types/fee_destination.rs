use vstd::prelude::*;
use vstd::string::StringExecFns;

verus! {

/// An account that receives a share of a verifier's fee.
#[derive(Debug, PartialEq, Eq)]
pub struct FeeDestination {
    /// The bech32 address of the account.
    pub address: String,
    /// The amount paid to this account out of the fee of the verifier that
    /// lists it. The amounts of all destinations of a verifier add up to
    /// that verifier's fee.
    pub fee_amount: u128,
}

/// A fee destination whose share is an amount, under the name that tells
/// it from one whose share is a fraction.
pub type FeeDestinationV2 = FeeDestination;

/// What a [`FeeDestination`] stands for.
pub struct FeeDestinationView {
    pub address: Seq<char>,
    pub fee_amount: nat,
}

impl View for FeeDestination {
    type V = FeeDestinationView;

    open spec fn view(&self) -> FeeDestinationView {
        FeeDestinationView { address: self.address@, fee_amount: self.fee_amount as nat }
    }
}

impl DeepView for FeeDestination {
    type V = FeeDestinationView;

    open spec fn deep_view(&self) -> FeeDestinationView {
        self@
    }
}

impl Clone for FeeDestination {
    fn clone(&self) -> (r: Self)
        ensures
            r@ == self@,
    {
        FeeDestination { address: self.address.clone(), fee_amount: self.fee_amount }
    }
}

impl FeeDestination {
    /// A destination at `address` that receives `fee_amount`.
    pub fn new(address: &str, fee_amount: u128) -> (r: Self)
        ensures
            r@ == (FeeDestinationView { address: address@, fee_amount: fee_amount as nat }),
    {
        FeeDestination { address: String::from_str(address), fee_amount }
    }
}

/// The sum of the amounts of a list of destinations.
pub open spec fn fee_total(destinations: Seq<FeeDestinationView>) -> nat
    decreases destinations.len(),
{
    if destinations.len() == 0 {
        0
    } else {
        fee_total(destinations.drop_last()) + destinations.last().fee_amount
    }
}

} // verus!
