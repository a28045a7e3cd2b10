//! The ways in which an operation can be refused.

use vstd::prelude::*;

verus! {

/// Why an operation was refused. A refused operation changes nothing.
#[derive(Clone, Copy, Debug, PartialEq, Eq, Structural)]
pub enum JupiterRewardsError {
    /// The tax rate exceeds the cap of 1000 basis points.
    InvalidTaxRate,
    /// The reward interval is shorter than 60 seconds.
    InvalidRewardInterval,
    /// The reward interval has not yet passed since the last distribution.
    TooEarlyForDistribution,
    /// The reward vault is empty.
    NoRewardsToDistribute,
    /// The total eligible supply is zero.
    NoEligibleHolders,
    /// The caller is not the authority of the policy.
    Unauthorized,
    /// The ledger rejected the transfer that the operation asked for.
    TransferFailed,
    /// A share does not fit in 64 bits.
    ArithmeticOverflow,
}

impl JupiterRewardsError {
    /// The text shown to a user for each error.
    pub open spec fn spec_message(self) -> Seq<char> {
        match self {
            JupiterRewardsError::InvalidTaxRate => "Invalid tax rate. Must be <= 1000 (10%)"@,
            JupiterRewardsError::InvalidRewardInterval =>
                "Invalid reward interval. Must be >= 60 seconds"@,
            JupiterRewardsError::TooEarlyForDistribution =>
                "Too early for distribution. Wait until the reward interval has passed"@,
            JupiterRewardsError::NoRewardsToDistribute => "No rewards to distribute"@,
            JupiterRewardsError::NoEligibleHolders => "No eligible holders"@,
            JupiterRewardsError::Unauthorized => "Unauthorized"@,
            JupiterRewardsError::TransferFailed => "Transfer rejected by the ledger"@,
            JupiterRewardsError::ArithmeticOverflow => "Arithmetic overflow"@,
        }
    }

    /// The text shown to a user for this error.
    pub fn message(&self) -> (text: &'static str)
        ensures
            text@ == self.spec_message(),
    {
        match self {
            JupiterRewardsError::InvalidTaxRate => "Invalid tax rate. Must be <= 1000 (10%)",
            JupiterRewardsError::InvalidRewardInterval =>
                "Invalid reward interval. Must be >= 60 seconds",
            JupiterRewardsError::TooEarlyForDistribution =>
                "Too early for distribution. Wait until the reward interval has passed",
            JupiterRewardsError::NoRewardsToDistribute => "No rewards to distribute",
            JupiterRewardsError::NoEligibleHolders => "No eligible holders",
            JupiterRewardsError::Unauthorized => "Unauthorized",
            JupiterRewardsError::TransferFailed => "Transfer rejected by the ledger",
            JupiterRewardsError::ArithmeticOverflow => "Arithmetic overflow",
        }
    }
}

} // verus!
