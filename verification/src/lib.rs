//! Tax and reward accounting for a fungible-token economy.
//!
//! The crate holds the distribution accounting rules: validated policy
//! parameters, the flat-rate tax on a transfer, the interval-gated
//! proportional payout from the reward vault, and the authority-gated
//! override of the schedule. Balances live in a ledger that the crate never
//! touches: every operation takes the balances it needs as plain integers and
//! hands back the transfer, if any, that the ledger is asked to make.

pub mod admin;
pub mod error;
pub mod identity;
pub mod ledger;
pub mod rewards;
pub mod state;
pub mod tax;

pub use admin::force_update_last_distribution;
pub use error::JupiterRewardsError;
pub use identity::AccountId;
pub use ledger::{Balances, Effect, TransferOutcome};
pub use rewards::{distribute_rewards, Distribution};
pub use state::{initialize, StateAccount};
pub use tax::collect_tax;
