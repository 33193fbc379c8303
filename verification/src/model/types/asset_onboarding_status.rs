use vstd::prelude::*;

verus! {

/// Where an asset stands in its current round of onboarding.
#[derive(Debug, Clone, Copy, PartialEq, Eq, Structural)]
pub enum AssetOnboardingStatus {
    /// Onboarded and waiting for the verifier.
    Pending,
    /// The verifier has turned the asset down.
    Denied,
    /// The verifier has accepted the asset.
    Approved,
}

impl AssetOnboardingStatus {
    /// Whether the round is over: the verifier has answered.
    pub open spec fn is_terminal(self) -> bool {
        self != AssetOnboardingStatus::Pending
    }

    /// The status that a verifier's answer leads to.
    pub open spec fn of_outcome(success: bool) -> AssetOnboardingStatus {
        if success {
            AssetOnboardingStatus::Approved
        } else {
            AssetOnboardingStatus::Denied
        }
    }
}

} // verus!
