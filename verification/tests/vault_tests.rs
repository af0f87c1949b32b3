use genius_vault::account_id::AccountId;
use genius_vault::errors::{GeniusVaultErrors, VaultError};
use genius_vault::vault::{VaultConfig, VaultLedger};

fn open_config() -> VaultConfig {
    VaultConfig {
        fee: 300,
        mint: AccountId::new([7u8; 32]),
        max_deposit: u64::MAX,
        max_shares: u64::MAX,
        shares_bump: 255,
        bump: 254,
    }
}

#[test]
fn first_deposit_on_empty_vault_bootstraps() {
    let cfg = open_config();
    let mut ledger = VaultLedger { holdings: 0, supply: 0, user_shares: 0 };
    let minted = ledger.deposit(&cfg, 1_000_000);
    assert_eq!(minted, Ok(1_000_000));
    assert_eq!(ledger.holdings, 1_000_000);
    assert_eq!(ledger.supply, 1_000_000);
    assert_eq!(ledger.user_shares, 1_000_000);
}

#[test]
fn second_deposit_prices_by_ratio() {
    let cfg = open_config();
    let mut ledger = VaultLedger {
        holdings: 1_000_000,
        supply: 1_000_000,
        user_shares: 0,
    };
    let minted = ledger.deposit(&cfg, 500_000);
    assert_eq!(minted, Ok(500_000));
    assert_eq!(ledger.holdings, 1_500_000);
    assert_eq!(ledger.supply, 1_500_000);
    assert_eq!(ledger.user_shares, 500_000);
}

#[test]
fn deposit_at_cap_is_rejected_unchanged() {
    let mut cfg = open_config();
    cfg.max_deposit = 1_000;
    let mut ledger = VaultLedger { holdings: 50, supply: 50, user_shares: 50 };
    let before = ledger;
    let r = ledger.deposit(&cfg, 1_000);
    assert_eq!(
        r,
        Err(VaultError::Exceeded(GeniusVaultErrors::ExceededMaxDeposit))
    );
    assert_eq!(ledger, before);
}

#[test]
fn withdraw_at_burn_cap_is_rejected_unchanged() {
    let mut cfg = open_config();
    cfg.max_shares = 2_000;
    let mut ledger = VaultLedger {
        holdings: 10_000,
        supply: 10_000,
        user_shares: 5_000,
    };
    let before = ledger;
    let r = ledger.withdraw(&cfg, 2_000);
    assert_eq!(
        r,
        Err(VaultError::Exceeded(GeniusVaultErrors::ExceededMaxBurn))
    );
    assert_eq!(ledger, before);
}

#[test]
fn oversized_share_mint_is_rejected_unchanged() {
    let mut cfg = open_config();
    cfg.max_shares = 5;
    let mut ledger = VaultLedger { holdings: 100, supply: 1, user_shares: 1 };
    let before = ledger;
    let r = ledger.deposit(&cfg, 10);
    assert_eq!(
        r,
        Err(VaultError::Exceeded(GeniusVaultErrors::ExceededMaxMint))
    );
    assert_eq!(ledger, before);
}

#[test]
fn deposit_overflow_is_rejected_unchanged() {
    let cfg = open_config();
    let mut full = VaultLedger {
        holdings: u64::MAX,
        supply: 5,
        user_shares: 5,
    };
    let before = full;
    assert_eq!(full.deposit(&cfg, 1), Err(VaultError::ArithmeticOverflow));
    assert_eq!(full, before);

    let mut skewed = VaultLedger { holdings: 7, supply: 0, user_shares: 0 };
    let before = skewed;
    assert_eq!(skewed.deposit(&cfg, 5), Err(VaultError::ArithmeticOverflow));
    assert_eq!(skewed, before);
}

#[test]
fn withdraw_beyond_balance_is_rejected_unchanged() {
    let cfg = open_config();
    let mut ledger = VaultLedger { holdings: 100, supply: 100, user_shares: 2 };
    let before = ledger;
    assert_eq!(ledger.withdraw(&cfg, 3), Err(VaultError::InsufficientBalance));
    assert_eq!(ledger, before);
}

#[test]
fn deposit_then_full_withdrawal_returns_no_more() {
    let cfg = open_config();
    let mut ledger = VaultLedger {
        holdings: 1_000_000,
        supply: 1_000_000,
        user_shares: 0,
    };
    let minted = ledger.deposit(&cfg, 500_000).unwrap();
    let paid = ledger.withdraw(&cfg, minted).unwrap();
    assert!(paid <= 500_000);
    assert_eq!(paid, 500_000);
    assert!(ledger.holdings >= 1_000_000);
}

#[test]
fn deposit_then_full_withdrawal_leaves_dust_with_vault() {
    let cfg = open_config();
    let mut ledger = VaultLedger { holdings: 1_000, supply: 2_000, user_shares: 0 };
    let minted = ledger.deposit(&cfg, 999).unwrap();
    assert_eq!(minted, 499);
    let paid = ledger.withdraw(&cfg, minted).unwrap();
    assert_eq!(paid, 399);
    assert!(paid <= 999);
    assert!(ledger.holdings >= 1_000);
    assert_eq!(ledger.holdings, 1_600);
    assert_eq!(ledger.user_shares, 0);
}

#[test]
fn transfer_tokens_moves_holdings_both_ways() {
    let mut ledger = VaultLedger { holdings: 10, supply: 3, user_shares: 1 };
    assert_eq!(ledger.transfer_tokens(5, true), Ok(()));
    assert_eq!(ledger.holdings, 15);
    assert_eq!(ledger.transfer_tokens(15, false), Ok(()));
    assert_eq!(ledger.holdings, 0);
    assert_eq!(ledger.transfer_tokens(1, false), Err(VaultError::InsufficientBalance));
    assert_eq!(ledger.supply, 3);
    assert_eq!(ledger.user_shares, 1);
}

#[test]
fn deposit_tokens_moves_assets_into_custody() {
    let mut ledger = VaultLedger { holdings: 10, supply: 3, user_shares: 1 };
    assert_eq!(ledger.deposit_tokens(90), Ok(()));
    assert_eq!(ledger.holdings, 100);
    assert_eq!(ledger.supply, 3);
    assert_eq!(ledger.deposit_tokens(u64::MAX), Err(VaultError::ArithmeticOverflow));
    assert_eq!(ledger.holdings, 100);
}

#[test]
fn mint_and_burn_shares_track_supply_and_balance() {
    let cfg = open_config();
    let mut ledger = VaultLedger { holdings: 0, supply: 10, user_shares: 4 };
    assert_eq!(ledger.mint_shares(&cfg, 6), Ok(()));
    assert_eq!(ledger.supply, 16);
    assert_eq!(ledger.user_shares, 10);
    assert_eq!(ledger.burn_shares(10), Ok(()));
    assert_eq!(ledger.supply, 6);
    assert_eq!(ledger.user_shares, 0);
    assert_eq!(ledger.burn_shares(1), Err(VaultError::InsufficientBalance));
}
