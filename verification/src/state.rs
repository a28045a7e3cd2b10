//! The persistent record of a deployed policy.

use vstd::prelude::*;
use crate::error::JupiterRewardsError;
use crate::identity::AccountId;

verus! {

/// The highest tax rate a policy may have, in basis points (10%).
pub const MAX_TAX_RATE_BPS: u16 = 1000;

/// The shortest reward interval a policy may have, in seconds.
pub const MIN_REWARD_INTERVAL_SECONDS: u32 = 60;

/// What a [`StateAccount`] holds, as mathematical values.
pub struct StateView {
    /// The account permitted to override the schedule.
    pub authority: AccountId,
    /// The token that is taxed and paid out.
    pub jupiter_mint: AccountId,
    /// The vault that collects the tax.
    pub tax_vault: AccountId,
    /// The vault that rewards are paid from.
    pub reward_vault: AccountId,
    /// The tax rate in basis points.
    pub tax_rate: nat,
    /// The least number of seconds between two distributions.
    pub reward_interval: nat,
    /// When rewards were last distributed, in seconds since the epoch.
    pub last_distribution: int,
}

impl StateView {
    /// The policy parameters are within their limits.
    pub open spec fn valid(self) -> bool {
        &&& self.tax_rate <= MAX_TAX_RATE_BPS
        &&& MIN_REWARD_INTERVAL_SECONDS <= self.reward_interval <= u32::MAX
        &&& i64::MIN <= self.last_distribution <= i64::MAX
    }

    /// This record with the last distribution moved to `timestamp`.
    pub open spec fn with_last_distribution(self, timestamp: int) -> StateView {
        StateView { last_distribution: timestamp, ..self }
    }
}

/// The record of one deployed policy: who may administer it, which accounts
/// it refers to, its two parameters and the time of the last distribution.
///
/// The identities and the parameters are fixed when the record is made. Every
/// record has a tax rate of at most 1000 basis points and an interval of at
/// least 60 seconds.
#[derive(Clone, Copy, Debug, PartialEq, Eq)]
pub struct StateAccount {
    authority: AccountId,
    jupiter_mint: AccountId,
    tax_vault: AccountId,
    reward_vault: AccountId,
    tax_rate: u16,
    reward_interval: u32,
    last_distribution: i64,
}

impl View for StateAccount {
    type V = StateView;

    closed spec fn view(&self) -> StateView {
        StateView {
            authority: self.authority,
            jupiter_mint: self.jupiter_mint,
            tax_vault: self.tax_vault,
            reward_vault: self.reward_vault,
            tax_rate: self.tax_rate as nat,
            reward_interval: self.reward_interval as nat,
            last_distribution: self.last_distribution as int,
        }
    }
}

impl StateAccount {
    #[verifier::type_invariant]
    spec fn within_limits(self) -> bool {
        &&& self.tax_rate <= MAX_TAX_RATE_BPS
        &&& self.reward_interval >= MIN_REWARD_INTERVAL_SECONDS
    }

    /// Two records with the same view are the same record.
    pub proof fn lemma_view_injective(self, other: StateAccount)
        requires
            self@ == other@,
        ensures
            self == other,
    {
    }

    /// The account permitted to override the schedule.
    pub fn authority(&self) -> (id: AccountId)
        ensures
            id == self@.authority,
    {
        self.authority
    }

    /// The token that is taxed and paid out.
    pub fn jupiter_mint(&self) -> (id: AccountId)
        ensures
            id == self@.jupiter_mint,
    {
        self.jupiter_mint
    }

    /// The vault that collects the tax.
    pub fn tax_vault(&self) -> (id: AccountId)
        ensures
            id == self@.tax_vault,
    {
        self.tax_vault
    }

    /// The vault that rewards are paid from.
    pub fn reward_vault(&self) -> (id: AccountId)
        ensures
            id == self@.reward_vault,
    {
        self.reward_vault
    }

    /// The tax rate in basis points, at most 1000.
    pub fn tax_rate(&self) -> (bps: u16)
        ensures
            bps == self@.tax_rate,
            bps <= MAX_TAX_RATE_BPS,
    {
        proof {
            use_type_invariant(self);
        }
        self.tax_rate
    }

    /// The least number of seconds between two distributions, at least 60.
    pub fn reward_interval(&self) -> (seconds: u32)
        ensures
            seconds == self@.reward_interval,
            seconds >= MIN_REWARD_INTERVAL_SECONDS,
    {
        proof {
            use_type_invariant(self);
        }
        self.reward_interval
    }

    /// When rewards were last distributed, in seconds since the epoch.
    pub fn last_distribution(&self) -> (timestamp: i64)
        ensures
            timestamp == self@.last_distribution,
    {
        self.last_distribution
    }

    /// This record with the last distribution moved to `timestamp`.
    pub(crate) fn at(&self, timestamp: i64) -> (moved: StateAccount)
        ensures
            moved@ == self@.with_last_distribution(timestamp as int),
            moved@.valid(),
    {
        proof {
            use_type_invariant(self);
        }
        StateAccount {
            authority: self.authority,
            jupiter_mint: self.jupiter_mint,
            tax_vault: self.tax_vault,
            reward_vault: self.reward_vault,
            tax_rate: self.tax_rate,
            reward_interval: self.reward_interval,
            last_distribution: timestamp,
        }
    }
}

/// What [`initialize`] returns: the new record, or why none was made.
pub open spec fn spec_initialize(
    authority: AccountId,
    jupiter_mint: AccountId,
    tax_vault: AccountId,
    reward_vault: AccountId,
    tax_rate: nat,
    reward_interval: nat,
    now: int,
) -> Result<StateView, JupiterRewardsError> {
    if tax_rate > MAX_TAX_RATE_BPS {
        Err(JupiterRewardsError::InvalidTaxRate)
    } else if reward_interval < MIN_REWARD_INTERVAL_SECONDS {
        Err(JupiterRewardsError::InvalidRewardInterval)
    } else {
        Ok(
            StateView {
                authority,
                jupiter_mint,
                tax_vault,
                reward_vault,
                tax_rate,
                reward_interval,
                last_distribution: now,
            },
        )
    }
}

/// Makes the record of a new policy.
///
/// A tax rate above 1000 basis points is refused with `InvalidTaxRate`; an
/// interval under 60 seconds, with `InvalidRewardInterval`. Otherwise the
/// record holds the arguments as given, and its last distribution is `now`:
/// the first distribution is due one full interval after creation.
pub fn initialize(
    authority: AccountId,
    jupiter_mint: AccountId,
    tax_vault: AccountId,
    reward_vault: AccountId,
    tax_rate: u16,
    reward_interval: u32,
    now: i64,
) -> (made: Result<StateAccount, JupiterRewardsError>)
    ensures
        match spec_initialize(
            authority,
            jupiter_mint,
            tax_vault,
            reward_vault,
            tax_rate as nat,
            reward_interval as nat,
            now as int,
        ) {
            Ok(view) => made is Ok && made->Ok_0@ == view,
            Err(error) => made == Err::<StateAccount, JupiterRewardsError>(error),
        },
        made matches Ok(state) ==> state@.valid(),
{
    if tax_rate > MAX_TAX_RATE_BPS {
        return Err(JupiterRewardsError::InvalidTaxRate);
    }
    if reward_interval < MIN_REWARD_INTERVAL_SECONDS {
        return Err(JupiterRewardsError::InvalidRewardInterval);
    }
    Ok(
        StateAccount {
            authority,
            jupiter_mint,
            tax_vault,
            reward_vault,
            tax_rate,
            reward_interval,
            last_distribution: now,
        },
    )
}

} // verus!
