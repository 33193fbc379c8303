use vstd::prelude::*;
use vstd::string::StringExecFns;

verus! {

/// A verifier's answer on an asset.
#[derive(Debug, PartialEq, Eq)]
pub struct AssetVerificationResult {
    /// What the verifier has to say about the asset.
    pub message: String,
    /// Whether the verifier accepts the asset.
    pub success: bool,
}

/// What an [`AssetVerificationResult`] stands for.
pub struct AssetVerificationResultView {
    pub message: Seq<char>,
    pub success: bool,
}

impl View for AssetVerificationResult {
    type V = AssetVerificationResultView;

    open spec fn view(&self) -> AssetVerificationResultView {
        AssetVerificationResultView { message: self.message@, success: self.success }
    }
}

impl DeepView for AssetVerificationResult {
    type V = AssetVerificationResultView;

    open spec fn deep_view(&self) -> AssetVerificationResultView {
        self@
    }
}

impl Clone for AssetVerificationResult {
    fn clone(&self) -> (r: Self)
        ensures
            r@ == self@,
    {
        AssetVerificationResult { message: self.message.clone(), success: self.success }
    }
}

impl AssetVerificationResult {
    /// An answer with its message.
    pub fn new(message: &str, success: bool) -> (r: Self)
        ensures
            r@ == (AssetVerificationResultView { message: message@, success }),
    {
        AssetVerificationResult { message: String::from_str(message), success }
    }
}

/// The view of an optional answer.
pub open spec fn optional_result(result: Option<AssetVerificationResult>) -> Option<
    AssetVerificationResultView,
> {
    match result {
        Some(found) => Some(found@),
        None => None,
    }
}

/// A copy of an optional answer.
pub fn clone_optional_result(result: &Option<AssetVerificationResult>) -> (r: Option<
    AssetVerificationResult,
>)
    ensures
        optional_result(r) == optional_result(*result),
{
    match result {
        Some(found) => Some(found.clone()),
        None => None,
    }
}

/// One round of onboarding in the history of an asset.
#[derive(Debug, PartialEq, Eq)]
pub struct AssetOnboardingTransaction {
    /// The place of the round in the history, counted from 0.
    pub index: u64,
    /// The verifier that was chosen for the round.
    pub verifier_address: String,
    /// The verifier's answer, once it has been given.
    pub result: Option<AssetVerificationResult>,
}

/// What an [`AssetOnboardingTransaction`] stands for.
pub struct AssetOnboardingTransactionView {
    pub index: nat,
    pub verifier_address: Seq<char>,
    pub result: Option<AssetVerificationResultView>,
}

impl View for AssetOnboardingTransaction {
    type V = AssetOnboardingTransactionView;

    open spec fn view(&self) -> AssetOnboardingTransactionView {
        AssetOnboardingTransactionView {
            index: self.index as nat,
            verifier_address: self.verifier_address@,
            result: optional_result(self.result),
        }
    }
}

impl DeepView for AssetOnboardingTransaction {
    type V = AssetOnboardingTransactionView;

    open spec fn deep_view(&self) -> AssetOnboardingTransactionView {
        self@
    }
}

impl Clone for AssetOnboardingTransaction {
    fn clone(&self) -> (r: Self)
        ensures
            r@ == self@,
    {
        AssetOnboardingTransaction {
            index: self.index,
            verifier_address: self.verifier_address.clone(),
            result: clone_optional_result(&self.result),
        }
    }
}

} // verus!
