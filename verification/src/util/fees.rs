use crate::model::asset::{VerifierDetail, VerifierDetailView};
use crate::model::error::{ContractError, ContractErrorView};
use crate::model::types::fee_destination::{fee_total, FeeDestination, FeeDestinationView};
use crate::model::types::response::{ContractMessage, ContractMessageView};
use crate::validation::validate_init_msg::{lemma_verifier_valid, verifier_valid};
use vstd::prelude::*;
use vstd::string::StringExecFns;

verus! {

/// What the error says.
pub const FEE_ABOVE_COST: &'static str =
    "the fee amount of the verifier is greater than its onboarding cost";

/// The payment of an amount to an account, or nothing where the amount is
/// zero.
pub open spec fn payment(to_address: Seq<char>, amount: nat, denom: Seq<char>) -> Seq<
    ContractMessageView,
> {
    if amount == 0 {
        Seq::empty()
    } else {
        seq![ContractMessageView::Send { to_address, amount, denom }]
    }
}

/// The payments to the fee destinations: to each its amount, in their
/// order, none where the amount is zero.
pub open spec fn destination_payments(destinations: Seq<FeeDestinationView>, denom: Seq<char>)
    -> Seq<ContractMessageView>
    decreases destinations.len(),
{
    if destinations.len() == 0 {
        Seq::empty()
    } else {
        destination_payments(destinations.drop_last(), denom) + payment(
            destinations.last().address,
            destinations.last().fee_amount,
            denom,
        )
    }
}

/// What is left of the onboarding cost for the verifier itself: the cost
/// less the fee, and the fee too where no destination takes it.
pub open spec fn verifier_share(verifier: VerifierDetailView) -> int {
    if verifier.fee_destinations.len() == 0 {
        verifier.onboarding_cost as int
    } else {
        verifier.onboarding_cost - verifier.fee_amount
    }
}

/// All payments that an onboarding with this verifier leads to: those to
/// the fee destinations, then the verifier's own share. A verifier whose fee
/// is above its cost has no share that could be paid.
pub open spec fn cost_payments(verifier: VerifierDetailView) -> Result<
    Seq<ContractMessageView>,
    ContractErrorView,
> {
    if verifier.fee_amount > verifier.onboarding_cost {
        Err(ContractErrorView::UnexpectedState { explanation: FEE_ABOVE_COST@ })
    } else if verifier.fee_destinations.len() == 0 {
        Ok(payment(verifier.address, verifier.onboarding_cost, verifier.onboarding_denom))
    } else {
        Ok(
            destination_payments(verifier.fee_destinations, verifier.onboarding_denom) + payment(
                verifier.address,
                verifier_share(verifier) as nat,
                verifier.onboarding_denom,
            ),
        )
    }
}

/// The sum of the amounts that a list of messages pays.
pub open spec fn payment_total(messages: Seq<ContractMessageView>) -> nat
    decreases messages.len(),
{
    if messages.len() == 0 {
        0
    } else {
        payment_total(messages.drop_last()) + match messages.last() {
            ContractMessageView::Send { amount, .. } => amount,
            _ => 0,
        }
    }
}

/// The payment total of two lists is the sum of their totals.
pub proof fn lemma_payment_total_add(a: Seq<ContractMessageView>, b: Seq<ContractMessageView>)
    ensures
        payment_total(a + b) == payment_total(a) + payment_total(b),
    decreases b.len(),
{
    if b.len() == 0 {
        assert(a + b =~= a);
    } else {
        lemma_payment_total_add(a, b.drop_last());
        assert((a + b).drop_last() =~= a + b.drop_last());
    }
}

/// One payment pays its amount.
pub proof fn lemma_payment_total_single(to_address: Seq<char>, amount: nat, denom: Seq<char>)
    ensures
        payment_total(payment(to_address, amount, denom)) == amount,
{
    let paid = payment(to_address, amount, denom);
    if amount != 0 {
        assert(paid.len() == 1);
        assert(paid.last() == ContractMessageView::Send { to_address, amount, denom });
        assert(paid.drop_last() =~= Seq::<ContractMessageView>::empty());
        assert(payment_total(paid.drop_last()) == 0);
    } else {
        assert(paid.len() == 0);
    }
}

/// The payments to the destinations pay the sum of the destinations'
/// amounts.
pub proof fn lemma_destination_payments_total(
    destinations: Seq<FeeDestinationView>,
    denom: Seq<char>,
)
    ensures
        payment_total(destination_payments(destinations, denom)) == fee_total(destinations),
    decreases destinations.len(),
{
    if destinations.len() > 0 {
        lemma_destination_payments_total(destinations.drop_last(), denom);
        lemma_payment_total_single(
            destinations.last().address,
            destinations.last().fee_amount,
            denom,
        );
        lemma_payment_total_add(
            destination_payments(destinations.drop_last(), denom),
            payment(destinations.last().address, destinations.last().fee_amount, denom),
        );
    }
}

/// Nothing is lost and nothing is added when the cost of an onboarding is
/// split: for a verifier whose fee fits in its cost and whose destinations'
/// amounts add up to the fee, the payments to the destinations and the
/// verifier's own share add up to the onboarding cost.
pub proof fn lemma_fee_split_conserves_cost(verifier: VerifierDetailView)
    requires
        verifier.fees_balanced(),
    ensures
        cost_payments(verifier) is Ok,
        payment_total(cost_payments(verifier)->Ok_0) == verifier.onboarding_cost,
        payment_total(destination_payments(verifier.fee_destinations, verifier.onboarding_denom))
            + verifier_share(verifier) == verifier.onboarding_cost,
{
    let denom = verifier.onboarding_denom;
    lemma_destination_payments_total(verifier.fee_destinations, denom);
    if verifier.fee_destinations.len() == 0 {
        lemma_payment_total_single(verifier.address, verifier.onboarding_cost, denom);
    } else {
        lemma_payment_total_single(verifier.address, verifier_share(verifier) as nat, denom);
        lemma_payment_total_add(
            destination_payments(verifier.fee_destinations, denom),
            payment(verifier.address, verifier_share(verifier) as nat, denom),
        );
    }
}

/// For a verifier with which nothing is wrong, the payments that an
/// onboarding leads to add up to the onboarding cost: what the fee
/// destinations get and what is left for the verifier are the whole of it.
pub proof fn lemma_valid_verifier_pays_cost(verifier: VerifierDetailView)
    requires
        verifier_valid(verifier),
    ensures
        cost_payments(verifier) is Ok,
        payment_total(cost_payments(verifier)->Ok_0) == verifier.onboarding_cost,
        payment_total(destination_payments(verifier.fee_destinations, verifier.onboarding_denom))
            + verifier_share(verifier) == verifier.onboarding_cost,
{
    lemma_verifier_valid(verifier);
    lemma_fee_split_conserves_cost(verifier);
}

/// Appends the payment of an amount, unless the amount is zero.
fn push_payment(messages: &mut Vec<ContractMessage>, to_address: &str, amount: u128, denom: &str)
    ensures
        final(messages).deep_view() == old(messages).deep_view() + payment(
            to_address@,
            amount as nat,
            denom@,
        ),
{
    if amount != 0 {
        messages.push(
            ContractMessage::Send {
                to_address: String::from_str(to_address),
                amount,
                denom: String::from_str(denom),
            },
        );
    }
    assert(messages.deep_view() =~= old(messages).deep_view() + payment(
        to_address@,
        amount as nat,
        denom@,
    ));
}

/// The payments to the fee destinations of a verifier: one for each
/// destination, of the destination's own amount, in the coin given. A
/// destination whose amount is zero gets no payment.
pub fn split_fee(destinations: &Vec<FeeDestination>, denom: &str) -> (r: Vec<ContractMessage>)
    ensures
        r.deep_view() == destination_payments(destinations.deep_view(), denom@),
{
    let mut messages: Vec<ContractMessage> = Vec::new();
    let ghost all = destinations.deep_view();
    assert(messages.deep_view() =~= destination_payments(all.take(0), denom@));
    let mut i: usize = 0;
    while i < destinations.len()
        invariant
            i <= destinations@.len(),
            all == destinations.deep_view(),
            messages.deep_view() == destination_payments(all.take(i as int), denom@),
        decreases destinations@.len() - i,
    {
        push_payment(
            &mut messages,
            destinations[i].address.as_str(),
            destinations[i].fee_amount,
            denom,
        );
        proof {
            assert(all.take(i + 1).drop_last() =~= all.take(i as int));
            assert(all.take(i + 1).last() == destinations@[i as int]@);
        }
        i = i + 1;
    }
    proof {
        assert(all.take(i as int) =~= all);
    }
    messages
}

/// The payments that an onboarding with this verifier leads to: to each fee
/// destination its amount, then to the verifier what is left of the
/// onboarding cost. Where there are no destinations the verifier gets the
/// whole cost. No payment is made of a zero amount.
pub fn calculate_verifier_cost_messages(verifier: &VerifierDetail) -> (r: Result<
    Vec<ContractMessage>,
    ContractError,
>)
    ensures
        match cost_payments(verifier@) {
            Ok(payments) => r matches Ok(messages) && messages.deep_view() == payments,
            Err(error) => r matches Err(e) && e@ == error,
        },
{
    if verifier.fee_amount > verifier.onboarding_cost {
        return Err(
            ContractError::UnexpectedState { explanation: String::from_str(FEE_ABOVE_COST) },
        );
    }
    let denom = verifier.onboarding_denom.as_str();
    if verifier.fee_destinations.len() == 0 {
        let mut messages: Vec<ContractMessage> = Vec::new();
        assert(messages.deep_view() =~= Seq::<ContractMessageView>::empty());
        push_payment(&mut messages, verifier.address.as_str(), verifier.onboarding_cost, denom);
        assert(messages.deep_view() =~= payment(
            verifier@.address,
            verifier@.onboarding_cost,
            verifier@.onboarding_denom,
        ));
        Ok(messages)
    } else {
        let mut messages = split_fee(&verifier.fee_destinations, denom);
        push_payment(
            &mut messages,
            verifier.address.as_str(),
            verifier.onboarding_cost - verifier.fee_amount,
            denom,
        );
        Ok(messages)
    }
}

} // verus!
