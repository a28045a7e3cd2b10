use jupiter_rewards::admin::{force_update_last_distribution, require_authority};
use jupiter_rewards::error::JupiterRewardsError;
use jupiter_rewards::identity::AccountId;
use jupiter_rewards::state::{initialize, StateAccount};

fn account(tag: u8) -> AccountId {
    AccountId::new([tag; 32])
}

fn policy(tax_rate: u16, reward_interval: u32, now: i64) -> StateAccount {
    initialize(account(1), account(2), account(3), account(4), tax_rate, reward_interval, now)
        .unwrap()
}

#[test]
fn initialize_rejects_tax_rate_above_cap() {
    let made = initialize(account(1), account(2), account(3), account(4), 1001, 3600, 0);
    assert_eq!(made, Err(JupiterRewardsError::InvalidTaxRate));
}

#[test]
fn initialize_rejects_largest_tax_rate() {
    let made = initialize(account(1), account(2), account(3), account(4), u16::MAX, 3600, 0);
    assert_eq!(made, Err(JupiterRewardsError::InvalidTaxRate));
}

#[test]
fn initialize_rejects_interval_under_a_minute() {
    let made = initialize(account(1), account(2), account(3), account(4), 500, 59, 0);
    assert_eq!(made, Err(JupiterRewardsError::InvalidRewardInterval));
}

#[test]
fn initialize_rejects_zero_interval() {
    let made = initialize(account(1), account(2), account(3), account(4), 0, 0, 0);
    assert_eq!(made, Err(JupiterRewardsError::InvalidRewardInterval));
}

#[test]
fn initialize_reports_the_tax_rate_first() {
    let made = initialize(account(1), account(2), account(3), account(4), 1001, 59, 0);
    assert_eq!(made, Err(JupiterRewardsError::InvalidTaxRate));
}

#[test]
fn initialize_accepts_the_limits() {
    let made = initialize(account(1), account(2), account(3), account(4), 1000, 60, 1_700_000_000);
    let state: StateAccount = made.unwrap();
    assert_eq!(state.tax_rate(), 1000);
    assert_eq!(state.reward_interval(), 60);
    assert_eq!(state.last_distribution(), 1_700_000_000);
}

#[test]
fn initialize_keeps_the_identities() {
    let state: StateAccount = policy(500, 300, 10);
    assert_eq!(state.authority(), account(1));
    assert_eq!(state.jupiter_mint(), account(2));
    assert_eq!(state.tax_vault(), account(3));
    assert_eq!(state.reward_vault(), account(4));
}

#[test]
fn initialize_accepts_zero_tax_and_longest_interval() {
    let state: StateAccount = policy(0, u32::MAX, i64::MIN);
    assert_eq!(state.tax_rate(), 0);
    assert_eq!(state.reward_interval(), u32::MAX);
    assert_eq!(state.last_distribution(), i64::MIN);
}

#[test]
fn initialize_starts_the_interval_at_creation() {
    let state: StateAccount = policy(500, 300, -42);
    assert_eq!(state.last_distribution(), -42);
}

#[test]
fn identities_differ_by_a_single_byte() {
    let mut bytes: [u8; 32] = [7; 32];
    let first: AccountId = AccountId::new(bytes);
    bytes[31] = 8;
    let second: AccountId = AccountId::new(bytes);
    assert!(first == account(7));
    assert!(first != second);
    assert_eq!(second.to_bytes()[31], 8);
    assert_eq!(second.to_bytes()[0], 7);
}

#[test]
fn identities_differ_in_the_first_byte() {
    let mut bytes: [u8; 32] = [0; 32];
    bytes[0] = 1;
    assert!(AccountId::new(bytes) != account(0));
}

#[test]
fn require_authority_admits_the_authority_only() {
    let state: StateAccount = policy(500, 300, 10);
    assert_eq!(require_authority(&state, &account(1)), Ok(()));
    assert_eq!(
        require_authority(&state, &account(3)),
        Err(JupiterRewardsError::Unauthorized)
    );
}

#[test]
fn force_update_by_a_stranger_is_refused() {
    let mut state: StateAccount = policy(500, 300, 10);
    let before: StateAccount = state;
    let updated = force_update_last_distribution(&mut state, &account(9), 999);
    assert_eq!(updated, Err(JupiterRewardsError::Unauthorized));
    assert_eq!(state.last_distribution(), 10);
    assert_eq!(state, before);
}

#[test]
fn force_update_by_the_authority_takes_any_timestamp() {
    let mut state: StateAccount = policy(500, 300, 10);
    assert_eq!(force_update_last_distribution(&mut state, &account(1), 999), Ok(()));
    assert_eq!(state.last_distribution(), 999);
    assert_eq!(force_update_last_distribution(&mut state, &account(1), -5), Ok(()));
    assert_eq!(state.last_distribution(), -5);
    assert_eq!(force_update_last_distribution(&mut state, &account(1), i64::MAX), Ok(()));
    assert_eq!(state.last_distribution(), i64::MAX);
    assert_eq!(force_update_last_distribution(&mut state, &account(1), i64::MIN), Ok(()));
    assert_eq!(state.last_distribution(), i64::MIN);
}

#[test]
fn force_update_changes_nothing_but_the_timestamp() {
    let mut state: StateAccount = policy(750, 120, 10);
    assert_eq!(force_update_last_distribution(&mut state, &account(1), 12345), Ok(()));
    assert_eq!(state, policy(750, 120, 12345));
    assert_eq!(state.tax_rate(), 750);
    assert_eq!(state.reward_interval(), 120);
    assert_eq!(state.authority(), account(1));
}

#[test]
fn the_vaults_cannot_override_the_schedule() {
    let mut state: StateAccount = policy(500, 300, 10);
    for tag in [2u8, 3u8, 4u8] {
        assert_eq!(
            force_update_last_distribution(&mut state, &account(tag), 0),
            Err(JupiterRewardsError::Unauthorized)
        );
    }
    assert_eq!(state.last_distribution(), 10);
}

#[test]
fn every_error_has_its_message() {
    assert_eq!(
        JupiterRewardsError::InvalidTaxRate.message(),
        "Invalid tax rate. Must be <= 1000 (10%)"
    );
    assert_eq!(
        JupiterRewardsError::InvalidRewardInterval.message(),
        "Invalid reward interval. Must be >= 60 seconds"
    );
    assert_eq!(
        JupiterRewardsError::TooEarlyForDistribution.message(),
        "Too early for distribution. Wait until the reward interval has passed"
    );
    assert_eq!(
        JupiterRewardsError::NoRewardsToDistribute.message(),
        "No rewards to distribute"
    );
    assert_eq!(JupiterRewardsError::NoEligibleHolders.message(), "No eligible holders");
    assert_eq!(JupiterRewardsError::Unauthorized.message(), "Unauthorized");
    assert_eq!(
        JupiterRewardsError::TransferFailed.message(),
        "Transfer rejected by the ledger"
    );
    assert_eq!(JupiterRewardsError::ArithmeticOverflow.message(), "Arithmetic overflow");
}
