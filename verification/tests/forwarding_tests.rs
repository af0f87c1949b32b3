use genius_vault::account_id::AccountId;
use genius_vault::forwarding::{after_deposit, ObservedAccount, StakeLiquidity};

fn id(tag: u8) -> AccountId {
    AccountId::new([tag; 32])
}

fn observed(tag: u8, is_signer: bool) -> ObservedAccount {
    ObservedAccount { id: id(tag), is_signer }
}

fn sample_accounts(authority: AccountId) -> StakeLiquidity {
    StakeLiquidity {
        user: observed(1, true),
        ata_user: observed(2, false),
        ata_vault: observed(3, false),
        shares_mint: observed(4, false),
        user_shares_ata: observed(5, false),
        vault: ObservedAccount { id: authority, is_signer: false },
        usdc_mint: observed(6, false),
        token_program: observed(7, false),
        associated_token_program: observed(8, false),
        system_program: observed(9, false),
    }
}

#[test]
fn authority_entry_signer_flag_is_forced_true() {
    let authority = id(42);
    let accounts = sample_accounts(authority);
    let call = after_deposit(&accounts, &authority, &id(99), 777);
    assert_eq!(call.accounts.len(), 10);
    // the triggering call did not mark the authority a signer, yet the
    // forwarded call must
    assert!(!accounts.vault.is_signer);
    assert!(call.accounts[5].is_signer);
    assert_eq!(call.accounts[5].id, authority);
}

#[test]
fn other_entries_keep_their_observed_signer_flags() {
    let authority = id(42);
    let accounts = sample_accounts(authority);
    let call = after_deposit(&accounts, &authority, &id(99), 777);
    assert!(call.accounts[0].is_signer);
    for i in 1..5 {
        assert!(!call.accounts[i].is_signer);
    }
    for i in 6..10 {
        assert!(!call.accounts[i].is_signer);
    }
}

#[test]
fn authority_is_forced_wherever_it_appears() {
    let authority = id(42);
    let mut accounts = sample_accounts(id(10));
    accounts.user_shares_ata = ObservedAccount { id: authority, is_signer: false };
    let call = after_deposit(&accounts, &authority, &id(99), 1);
    assert!(call.accounts[4].is_signer);
    assert!(!call.accounts[5].is_signer);
}

#[test]
fn schema_order_and_writability_are_fixed() {
    let authority = id(42);
    let accounts = sample_accounts(authority);
    let call = after_deposit(&accounts, &authority, &id(99), 5);
    let expected_ids = [
        id(1),
        id(2),
        id(3),
        id(4),
        id(5),
        authority,
        id(6),
        id(7),
        id(8),
        id(9),
    ];
    let expected_writable = [
        false, true, true, false, true, false, false, false, false, false,
    ];
    for i in 0..10 {
        assert_eq!(call.accounts[i].id, expected_ids[i]);
        assert_eq!(call.accounts[i].is_writable, expected_writable[i]);
    }
    assert_eq!(call.program_id, id(99));
}

#[test]
fn call_data_is_the_amount_in_little_endian() {
    let authority = id(42);
    let accounts = sample_accounts(authority);
    let call = after_deposit(&accounts, &authority, &id(99), 0x0102_0304_0506_0708);
    assert_eq!(call.data, 0x0102_0304_0506_0708u64.to_le_bytes().to_vec());
    let zero = after_deposit(&accounts, &authority, &id(99), 0);
    assert_eq!(zero.data, vec![0u8; 8]);
}
