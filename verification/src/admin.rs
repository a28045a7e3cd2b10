//! The authority's override of the schedule.

use vstd::prelude::*;
use crate::error::JupiterRewardsError;
use crate::identity::AccountId;
use crate::state::StateAccount;

verus! {

/// Admits `caller` only if it is the authority of the policy; anyone else is
/// refused with `Unauthorized`.
pub fn require_authority(state: &StateAccount, caller: &AccountId) -> (admitted: Result<
    (),
    JupiterRewardsError,
>)
    ensures
        *caller == state@.authority ==> admitted == Ok::<(), JupiterRewardsError>(()),
        *caller != state@.authority ==> admitted == Err::<(), JupiterRewardsError>(
            JupiterRewardsError::Unauthorized,
        ),
{
    let authority = state.authority();
    if *caller == authority {
        Ok(())
    } else {
        Err(JupiterRewardsError::Unauthorized)
    }
}

/// Sets the time of the last distribution to `new_timestamp`, on behalf of
/// `caller`.
///
/// Only the authority of the policy may do this: any other caller is refused
/// with `Unauthorized`, and the record stays as it was. For the authority
/// every timestamp is taken as given, whether past or future, and nothing
/// else in the record changes.
pub fn force_update_last_distribution(
    state: &mut StateAccount,
    caller: &AccountId,
    new_timestamp: i64,
) -> (updated: Result<(), JupiterRewardsError>)
    ensures
        *caller == old(state)@.authority ==> updated == Ok::<(), JupiterRewardsError>(())
            && final(state)@ == old(state)@.with_last_distribution(new_timestamp as int),
        *caller != old(state)@.authority ==> updated == Err::<(), JupiterRewardsError>(
            JupiterRewardsError::Unauthorized,
        ) && *final(state) == *old(state),
        updated is Ok ==> final(state)@.valid(),
{
    match require_authority(state, caller) {
        Ok(()) => {
            *state = state.at(new_timestamp);
            Ok(())
        },
        Err(error) => Err(error),
    }
}

} // verus!
