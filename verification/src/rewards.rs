//! The scheduled payout from the reward vault.
//!
//! A distribution pays one recipient its share of the reward vault, in
//! proportion to what the recipient holds of the total eligible supply, and
//! restarts the interval. It is due once a full interval has passed since
//! the last one.

use vstd::prelude::*;
use crate::error::JupiterRewardsError;
use crate::identity::AccountId;
use crate::ledger::{Balances, Effect, TransferOutcome};
use crate::state::{StateAccount, StateView};

verus! {

/// Whether a distribution is due at `now`: a full interval has passed since
/// the last one.
pub open spec fn interval_elapsed(state: StateView, now: int) -> bool {
    now - state.last_distribution >= state.reward_interval
}

/// The recipient's share of the reward vault, rounded down: the vault's
/// balance times the recipient's holding, over the total eligible supply.
pub open spec fn spec_reward_share(
    recipient_holding: nat,
    reward_vault_balance: nat,
    total_eligible_supply: nat,
) -> nat
    recommends
        total_eligible_supply > 0,
{
    (recipient_holding * reward_vault_balance) / total_eligible_supply
}

/// What is paid out: the recipient's share, but never more than the vault
/// holds.
pub open spec fn spec_payout(
    recipient_holding: nat,
    reward_vault_balance: nat,
    total_eligible_supply: nat,
) -> nat
    recommends
        total_eligible_supply > 0,
{
    let share = spec_reward_share(recipient_holding, reward_vault_balance, total_eligible_supply);
    if share <= reward_vault_balance {
        share
    } else {
        reward_vault_balance
    }
}

/// What a [`Distribution`] holds, as mathematical values.
pub struct DistributionView {
    /// The amount that the recipient is paid.
    pub payout_amount: nat,
    /// The transfer asked of the ledger.
    pub effect: Effect,
    /// The record as it stands once the payout is made.
    pub updated_state: StateView,
}

/// A distribution that has been decided and not yet paid.
///
/// It names the payout and the transfer that the ledger is asked to make.
/// The updated record is kept back until the ledger has answered: see
/// [`Distribution::settle`].
#[derive(Clone, Copy, Debug, PartialEq, Eq)]
pub struct Distribution {
    payout_amount: u64,
    effect: Effect,
    updated_state: StateAccount,
}

impl View for Distribution {
    type V = DistributionView;

    closed spec fn view(&self) -> DistributionView {
        DistributionView {
            payout_amount: self.payout_amount as nat,
            effect: self.effect,
            updated_state: self.updated_state@,
        }
    }
}

impl Distribution {
    #[verifier::type_invariant]
    spec fn consistent(self) -> bool {
        &&& self.effect.spec_amount() == self.payout_amount
        &&& self.updated_state@.valid()
    }

    /// The amount that the recipient is paid.
    pub fn payout_amount(&self) -> (amount: u64)
        ensures
            amount == self@.payout_amount,
    {
        self.payout_amount
    }

    /// The transfer asked of the ledger. It moves exactly the payout.
    pub fn effect(&self) -> (effect: Effect)
        ensures
            effect == self@.effect,
            effect.spec_amount() == self@.payout_amount,
    {
        proof {
            use_type_invariant(self);
        }
        self.effect
    }

    /// Closes the distribution once the ledger has answered.
    ///
    /// Returns the payout and the updated record when nothing was asked of
    /// the ledger or the ledger completed the transfer. When the ledger
    /// rejected the transfer the distribution fails with `TransferFailed`
    /// and the updated record is not handed out: the caller's record stays
    /// as it was.
    pub fn settle(self, outcome: TransferOutcome) -> (settled: Result<
        (u64, StateAccount),
        JupiterRewardsError,
    >)
        ensures
            self@.effect.settled_by(outcome) ==> settled is Ok && settled->Ok_0.0
                == self@.payout_amount && settled->Ok_0.1@ == self@.updated_state,
            !self@.effect.settled_by(outcome) ==> settled == Err::<
                (u64, StateAccount),
                JupiterRewardsError,
            >(JupiterRewardsError::TransferFailed),
            settled matches Ok(paid) ==> paid.1@.valid(),
    {
        proof {
            use_type_invariant(&self);
        }
        match self.effect.settle(outcome) {
            Ok(_) => Ok((self.payout_amount, self.updated_state)),
            Err(error) => Err(error),
        }
    }
}

/// What [`distribute_rewards`] returns.
///
/// The checks are made in this order: the interval, the vault's balance, the
/// eligible supply, the size of the share.
pub open spec fn spec_distribute_rewards(
    state: StateView,
    recipient: AccountId,
    now: int,
    reward_vault_balance: nat,
    recipient_holding: nat,
    total_eligible_supply: nat,
) -> Result<DistributionView, JupiterRewardsError> {
    if !interval_elapsed(state, now) {
        Err(JupiterRewardsError::TooEarlyForDistribution)
    } else if reward_vault_balance == 0 {
        Err(JupiterRewardsError::NoRewardsToDistribute)
    } else if total_eligible_supply == 0 {
        Err(JupiterRewardsError::NoEligibleHolders)
    } else if spec_reward_share(recipient_holding, reward_vault_balance, total_eligible_supply)
        > u64::MAX {
        Err(JupiterRewardsError::ArithmeticOverflow)
    } else {
        let payout = spec_payout(recipient_holding, reward_vault_balance, total_eligible_supply);
        Ok(
            DistributionView {
                payout_amount: payout,
                effect: Effect::spec_moving(state.reward_vault, recipient, payout as u64),
                updated_state: state.with_last_distribution(now),
            },
        )
    }
}

/// What [`reward_share`] returns.
pub open spec fn spec_checked_reward_share(
    recipient_holding: nat,
    reward_vault_balance: nat,
    total_eligible_supply: nat,
) -> Result<u64, JupiterRewardsError> {
    if total_eligible_supply == 0 {
        Err(JupiterRewardsError::NoEligibleHolders)
    } else if spec_reward_share(recipient_holding, reward_vault_balance, total_eligible_supply)
        > u64::MAX {
        Err(JupiterRewardsError::ArithmeticOverflow)
    } else {
        Ok(
            spec_reward_share(
                recipient_holding,
                reward_vault_balance,
                total_eligible_supply,
            ) as u64,
        )
    }
}

/// The recipient's share of the reward vault, rounded down.
///
/// Fails with `NoEligibleHolders` when the total eligible supply is zero,
/// and with `ArithmeticOverflow` when the share does not fit in 64 bits. The
/// product is taken in 128 bits, so it never wraps.
pub fn reward_share(
    recipient_holding: u64,
    reward_vault_balance: u64,
    total_eligible_supply: u64,
) -> (share: Result<u64, JupiterRewardsError>)
    ensures
        share == spec_checked_reward_share(
            recipient_holding as nat,
            reward_vault_balance as nat,
            total_eligible_supply as nat,
        ),
{
    if total_eligible_supply == 0 {
        return Err(JupiterRewardsError::NoEligibleHolders);
    }
    assert(recipient_holding * reward_vault_balance <= u128::MAX) by (nonlinear_arith)
        requires
            recipient_holding <= u64::MAX,
            reward_vault_balance <= u64::MAX,
    ;
    let product: u128 = (recipient_holding as u128) * (reward_vault_balance as u128);
    let quotient: u128 = product / (total_eligible_supply as u128);
    if quotient > u64::MAX as u128 {
        Err(JupiterRewardsError::ArithmeticOverflow)
    } else {
        Ok(quotient as u64)
    }
}

/// Decides a distribution at `now`.
///
/// Fails with `TooEarlyForDistribution` unless a full interval has passed
/// since the last distribution; then with `NoRewardsToDistribute` if the
/// reward vault is empty; then with `NoEligibleHolders` if the total eligible
/// supply is zero; then with `ArithmeticOverflow` if the recipient's share
/// does not fit in 64 bits.
///
/// Otherwise the payout is the recipient's share, capped at the vault's
/// balance. A payout above zero asks the ledger to move it from the reward
/// vault to the recipient; a payout of zero asks nothing. Either way the
/// updated record has `now` as its last distribution, and is otherwise the
/// record given.
///
/// The record given is never changed.
pub fn distribute_rewards(
    state: &StateAccount,
    recipient: AccountId,
    now: i64,
    reward_vault_balance: u64,
    recipient_holding: u64,
    total_eligible_supply: u64,
) -> (decided: Result<Distribution, JupiterRewardsError>)
    ensures
        match spec_distribute_rewards(
            state@,
            recipient,
            now as int,
            reward_vault_balance as nat,
            recipient_holding as nat,
            total_eligible_supply as nat,
        ) {
            Ok(view) => decided is Ok && decided->Ok_0@ == view,
            Err(error) => decided == Err::<Distribution, JupiterRewardsError>(error),
        },
        now - state@.last_distribution < state@.reward_interval ==> decided == Err::<
            Distribution,
            JupiterRewardsError,
        >(JupiterRewardsError::TooEarlyForDistribution),
        interval_elapsed(state@, now as int) && reward_vault_balance > 0 && total_eligible_supply
            == 0 ==> decided == Err::<Distribution, JupiterRewardsError>(
            JupiterRewardsError::NoEligibleHolders,
        ),
        decided matches Ok(distribution) ==> {
            &&& distribution@.payout_amount <= reward_vault_balance
            &&& distribution@.effect.spec_amount() == distribution@.payout_amount
            &&& distribution@.updated_state == state@.with_last_distribution(now as int)
            &&& distribution@.updated_state.valid()
            &&& distribution@.updated_state.last_distribution >= state@.last_distribution
                + state@.reward_interval
        },
{
    let elapsed: i128 = (now as i128) - (state.last_distribution() as i128);
    if elapsed < state.reward_interval() as i128 {
        return Err(JupiterRewardsError::TooEarlyForDistribution);
    }
    if reward_vault_balance == 0 {
        return Err(JupiterRewardsError::NoRewardsToDistribute);
    }
    let share = match reward_share(recipient_holding, reward_vault_balance, total_eligible_supply) {
        Ok(share) => share,
        Err(error) => {
            return Err(error);
        },
    };
    let payout_amount = if share <= reward_vault_balance {
        share
    } else {
        reward_vault_balance
    };
    Ok(
        Distribution {
            payout_amount,
            effect: Effect::moving(state.reward_vault(), recipient, payout_amount),
            updated_state: state.at(now),
        },
    )
}

/// A distribution restarts the interval. After a distribution decided at
/// `first_now`, any further one asked for less than a full interval later is
/// refused with `TooEarlyForDistribution`, whatever the balances given: the
/// gate reads the updated record.
pub proof fn lemma_distribution_restarts_interval(
    state: StateView,
    first_recipient: AccountId,
    first_now: int,
    first_reward_vault_balance: nat,
    first_recipient_holding: nat,
    first_total_eligible_supply: nat,
    second_recipient: AccountId,
    second_now: int,
    second_reward_vault_balance: nat,
    second_recipient_holding: nat,
    second_total_eligible_supply: nat,
)
    requires
        spec_distribute_rewards(
            state,
            first_recipient,
            first_now,
            first_reward_vault_balance,
            first_recipient_holding,
            first_total_eligible_supply,
        ) is Ok,
        second_now - first_now < state.reward_interval,
    ensures
        spec_distribute_rewards(
            spec_distribute_rewards(
                state,
                first_recipient,
                first_now,
                first_reward_vault_balance,
                first_recipient_holding,
                first_total_eligible_supply,
            )->Ok_0.updated_state,
            second_recipient,
            second_now,
            second_reward_vault_balance,
            second_recipient_holding,
            second_total_eligible_supply,
        ) == Err::<DistributionView, JupiterRewardsError>(
            JupiterRewardsError::TooEarlyForDistribution,
        ),
{
}

/// A distribution pays out of the reward vault no more than it holds, and
/// what leaves the vault reaches the recipient: when the ledger carries out
/// the transfer asked for, the vault is debited by the payout and the
/// recipient is credited by it.
pub proof fn lemma_distribution_conserves(
    state: StateView,
    recipient: AccountId,
    now: int,
    reward_vault_balance: nat,
    recipient_holding: nat,
    total_eligible_supply: nat,
    before: Balances,
)
    requires
        spec_distribute_rewards(
            state,
            recipient,
            now,
            reward_vault_balance,
            recipient_holding,
            total_eligible_supply,
        ) is Ok,
        before.source == reward_vault_balance,
        before.source + before.destination <= u64::MAX,
    ensures
        ({
            let decided = spec_distribute_rewards(
                state,
                recipient,
                now,
                reward_vault_balance,
                recipient_holding,
                total_eligible_supply,
            )->Ok_0;
            let (outcome, after) = decided.effect.spec_apply(before);
            &&& decided.payout_amount <= reward_vault_balance
            &&& decided.effect.spec_amount() == decided.payout_amount
            &&& outcome is Completed
            &&& after.source == before.source - decided.payout_amount
            &&& after.destination == before.destination + decided.payout_amount
        }),
{
}

} // verus!
