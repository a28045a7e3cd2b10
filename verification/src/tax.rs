//! The flat-rate tax on a transfer.

use vstd::prelude::*;
use crate::identity::AccountId;
use crate::ledger::{Balances, Effect};
use crate::state::{StateAccount, StateView};

verus! {

/// The number of basis points in the whole: 10000 basis points are 100%.
pub const BASIS_POINTS: u64 = 10000;

/// The tax on `gross_amount` at `tax_rate` basis points, rounded down.
pub open spec fn spec_tax_amount(gross_amount: nat, tax_rate: nat) -> nat {
    (gross_amount * tax_rate) / (BASIS_POINTS as nat)
}

/// At a rate within the cap the tax is at most a tenth of the gross amount,
/// so it fits wherever the gross amount does.
pub proof fn lemma_tax_within_gross(gross_amount: nat, tax_rate: nat)
    requires
        tax_rate <= crate::state::MAX_TAX_RATE_BPS,
    ensures
        spec_tax_amount(gross_amount, tax_rate) <= gross_amount / 10,
        spec_tax_amount(gross_amount, tax_rate) <= gross_amount,
{
    assert(gross_amount * tax_rate <= gross_amount * 1000) by (nonlinear_arith)
        requires
            tax_rate <= 1000,
    ;
    assert((gross_amount * 1000) / 10000 == gross_amount / 10) by (nonlinear_arith);
    assert((gross_amount * tax_rate) / 10000 <= (gross_amount * 1000) / 10000)
        by (nonlinear_arith)
        requires
            gross_amount * tax_rate <= gross_amount * 1000,
    ;
}

/// What [`collect_tax`] returns: the tax, and the transfer of it from the
/// payer to the tax vault.
pub open spec fn spec_collect_tax(state: StateView, payer: AccountId, gross_amount: nat) -> (
    nat,
    Effect,
) {
    let tax = spec_tax_amount(gross_amount, state.tax_rate);
    (tax, Effect::spec_moving(payer, state.tax_vault, tax as u64))
}

/// The tax on `gross_amount` at `tax_rate` basis points, rounded down.
///
/// The product is taken in 128 bits, so it never wraps.
fn tax_amount(gross_amount: u64, tax_rate: u16) -> (tax: u64)
    requires
        tax_rate <= crate::state::MAX_TAX_RATE_BPS,
    ensures
        tax == spec_tax_amount(gross_amount as nat, tax_rate as nat),
{
    proof {
        lemma_tax_within_gross(gross_amount as nat, tax_rate as nat);
    }
    let product: u128 = (gross_amount as u128) * (tax_rate as u128);
    (product / (BASIS_POINTS as u128)) as u64
}

/// Assesses the tax on a transfer of `gross_amount` made by `payer`.
///
/// The tax is the gross amount times the policy's rate over 10000, rounded
/// down. A tax above zero asks the ledger to move it from the payer to the
/// tax vault. A tax of zero asks nothing of the ledger: a transfer too small
/// for the rate pays no tax.
pub fn collect_tax(state: &StateAccount, payer: AccountId, gross_amount: u64) -> (assessed: (
    u64,
    Effect,
))
    ensures
        assessed.0 == spec_tax_amount(gross_amount as nat, state@.tax_rate),
        assessed.1 == Effect::spec_moving(payer, state@.tax_vault, assessed.0),
        assessed.1.spec_amount() == assessed.0,
        (assessed.0 as nat, assessed.1) == spec_collect_tax(state@, payer, gross_amount as nat),
{
    let tax = tax_amount(gross_amount, state.tax_rate());
    (tax, Effect::moving(payer, state.tax_vault(), tax))
}

/// Collecting tax conserves value. At any rate within the cap, the transfer
/// asked for moves exactly the tax, the gross amount times the rate over
/// 10000, rounded down. When the ledger carries it out, the payer is debited
/// by the tax and the tax vault is credited by it, or, if the payer holds
/// less than the tax, nothing moves: either way the payer and the vault hold
/// together what they held before.
pub proof fn lemma_collect_tax_conserves(
    state: StateView,
    payer: AccountId,
    gross_amount: nat,
    before: Balances,
)
    requires
        state.tax_rate <= crate::state::MAX_TAX_RATE_BPS,
        gross_amount <= u64::MAX,
        before.destination + spec_tax_amount(gross_amount, state.tax_rate) <= u64::MAX,
    ensures
        ({
            let (tax, effect) = spec_collect_tax(state, payer, gross_amount);
            let (outcome, after) = effect.spec_apply(before);
            &&& tax == (gross_amount * state.tax_rate) / 10000
            &&& effect.spec_amount() == tax
            &&& after.source + after.destination == before.source + before.destination
            &&& outcome is Completed <==> tax <= before.source
            &&& outcome is Completed ==> after.source == before.source - tax && after.destination
                == before.destination + tax
            &&& !(outcome is Completed) ==> after == before
        }),
{
    lemma_tax_within_gross(gross_amount, state.tax_rate);
}

} // verus!
