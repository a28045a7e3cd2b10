//! What the operations ask of the ledger, and what the ledger answers.
//!
//! The ledger holds the balances and moves value between accounts, all or
//! nothing. The operations of this crate never move value themselves: they
//! name the transfer to be made as an [`Effect`], and are told how it went
//! as a [`TransferOutcome`].

use vstd::prelude::*;
use crate::error::JupiterRewardsError;
use crate::identity::AccountId;

verus! {

/// The transfer that an operation asks the ledger to make, if any.
#[derive(Clone, Copy, Debug, PartialEq, Eq)]
pub enum Effect {
    /// Nothing is to be moved.
    NoTransfer,
    /// Debit `from` by `amount` and credit `to` by `amount`, as one step.
    Transfer { from: AccountId, to: AccountId, amount: u64 },
}

/// What the ledger reported of a transfer that it was asked to make.
#[derive(Clone, Copy, Debug, PartialEq, Eq)]
pub enum TransferOutcome {
    /// The whole amount was moved.
    Completed,
    /// The source account holds less than the amount; nothing was moved.
    InsufficientFunds,
    /// The source account did not authorize the debit; nothing was moved.
    Unauthorized,
}

/// The balances of the two accounts that a transfer touches.
#[derive(Clone, Copy, Debug, PartialEq, Eq)]
pub struct Balances {
    /// The balance of the account that is debited.
    pub source: u64,
    /// The balance of the account that is credited.
    pub destination: u64,
}

impl Balances {
    /// The value that the two accounts hold together.
    pub open spec fn total(self) -> nat {
        (self.source + self.destination) as nat
    }
}

impl Effect {
    /// The effect that moves `amount` from `from` to `to`: a transfer, or
    /// nothing at all when the amount is zero.
    pub open spec fn spec_moving(from: AccountId, to: AccountId, amount: u64) -> Effect {
        if amount == 0 {
            Effect::NoTransfer
        } else {
            Effect::Transfer { from, to, amount }
        }
    }

    /// The effect that moves `amount` from `from` to `to`. A zero amount
    /// asks nothing of the ledger.
    pub fn moving(from: AccountId, to: AccountId, amount: u64) -> (effect: Effect)
        ensures
            effect == Effect::spec_moving(from, to, amount),
    {
        if amount == 0 {
            Effect::NoTransfer
        } else {
            Effect::Transfer { from, to, amount }
        }
    }

    /// The amount that this effect moves.
    pub open spec fn spec_amount(self) -> nat {
        match self {
            Effect::NoTransfer => 0,
            Effect::Transfer { amount, .. } => amount as nat,
        }
    }

    /// The amount that this effect moves; zero when it moves nothing.
    pub fn amount(&self) -> (amount: u64)
        ensures
            amount == self.spec_amount(),
    {
        match self {
            Effect::NoTransfer => 0,
            Effect::Transfer { amount, .. } => *amount,
        }
    }

    /// Whether the operation that asked for this effect may go on, given
    /// what the ledger reported: it may when nothing was asked, or when the
    /// transfer was completed.
    pub open spec fn settled_by(self, outcome: TransferOutcome) -> bool {
        self is NoTransfer || outcome is Completed
    }

    /// Closes the operation that asked for this effect.
    ///
    /// Returns the amount moved when nothing was asked of the ledger or the
    /// ledger completed the transfer. A transfer that the ledger rejected,
    /// for whatever reason, fails the operation with `TransferFailed`.
    pub fn settle(&self, outcome: TransferOutcome) -> (moved: Result<u64, JupiterRewardsError>)
        ensures
            self.settled_by(outcome) ==> moved == Ok::<u64, JupiterRewardsError>(
                self.spec_amount() as u64,
            ),
            !self.settled_by(outcome) ==> moved == Err::<u64, JupiterRewardsError>(
                JupiterRewardsError::TransferFailed,
            ),
    {
        match self {
            Effect::NoTransfer => Ok(0),
            Effect::Transfer { amount, .. } => match outcome {
                TransferOutcome::Completed => Ok(*amount),
                TransferOutcome::InsufficientFunds => Err(JupiterRewardsError::TransferFailed),
                TransferOutcome::Unauthorized => Err(JupiterRewardsError::TransferFailed),
            },
        }
    }

    /// What a ledger answers when it carries out this effect on accounts
    /// with the balances `before`, and the balances afterwards: the amount
    /// moves if the source holds it, and otherwise nothing changes.
    pub open spec fn spec_apply(self, before: Balances) -> (TransferOutcome, Balances) {
        if self.spec_amount() > before.source {
            (TransferOutcome::InsufficientFunds, before)
        } else {
            (
                TransferOutcome::Completed,
                Balances {
                    source: (before.source - self.spec_amount()) as u64,
                    destination: (before.destination + self.spec_amount()) as u64,
                },
            )
        }
    }

    /// Carries out this effect on two balances, as a ledger does: all of
    /// the amount moves from the source to the destination, or, when the
    /// source holds less, nothing moves.
    ///
    /// The credited balance has to fit in 64 bits.
    pub fn apply(&self, before: Balances) -> (answer: (TransferOutcome, Balances))
        requires
            self.spec_amount() <= before.source ==> before.destination + self.spec_amount()
                <= u64::MAX,
        ensures
            answer == self.spec_apply(before),
            answer.1.total() == before.total(),
            answer.0 is Completed ==> answer.1.source == before.source - self.spec_amount()
                && answer.1.destination == before.destination + self.spec_amount(),
            !(answer.0 is Completed) ==> answer.1 == before,
    {
        let amount = self.amount();
        if amount > before.source {
            (TransferOutcome::InsufficientFunds, before)
        } else {
            (
                TransferOutcome::Completed,
                Balances {
                    source: before.source - amount,
                    destination: before.destination + amount,
                },
            )
        }
    }
}

} // verus!
