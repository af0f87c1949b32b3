use genius_vault::account_id::AccountId;
use genius_vault::authority::{authority_address, derive_authority, derive_shares_mint};
use genius_vault::vault::initialize;
use solana_program::pubkey::Pubkey;

#[test]
fn derivation_matches_the_host_environment_search() {
    let mint = AccountId::new([3u8; 32]);
    let program = AccountId::new([9u8; 32]);
    let (authority, bump) = derive_authority(&mint, &program).expect("a bump must exist");
    let pid = Pubkey::new_from_array([9u8; 32]);
    let (expected, expected_bump) = Pubkey::find_program_address(&[b"config", &[3u8; 32]], &pid);
    assert_eq!(authority.bytes, expected.to_bytes());
    assert_eq!(bump, expected_bump);
}

#[test]
fn derivation_is_deterministic() {
    let mint = AccountId::new([11u8; 32]);
    let program = AccountId::new([22u8; 32]);
    let first = derive_authority(&mint, &program).expect("a bump must exist");
    let second = derive_authority(&mint, &program).expect("a bump must exist");
    assert_eq!(first, second);
}

#[test]
fn stored_bump_recreates_the_authority() {
    let mint = AccountId::new([5u8; 32]);
    let program = AccountId::new([6u8; 32]);
    let (authority, bump) = derive_authority(&mint, &program).expect("a bump must exist");
    let recreated = authority_address(&mint, bump, &program).expect("the stored bump is valid");
    assert_eq!(recreated, authority);
    // distinct vaults derive distinct authorities
    let other = derive_authority(&AccountId::new([8u8; 32]), &program).unwrap();
    assert_ne!(other.0, authority);
}

#[test]
fn initialize_fixes_parameters_and_persists_bumps() {
    let mint = AccountId::new([13u8; 32]);
    let program = AccountId::new([14u8; 32]);
    let vault = initialize(&mint, &program).expect("derivation must succeed");
    assert_eq!(vault.config.fee, 300);
    assert_eq!(vault.config.mint, mint);
    assert_eq!(vault.config.max_deposit, u64::MAX);
    assert_eq!(vault.config.max_shares, u64::MAX);

    let (authority, bump) = derive_authority(&mint, &program).unwrap();
    assert_eq!(vault.authority, authority);
    assert_eq!(vault.config.bump, bump);

    let (shares, shares_bump) = derive_shares_mint(&authority, &program).unwrap();
    assert_eq!(vault.shares_mint, shares);
    assert_eq!(vault.config.shares_bump, shares_bump);

    // the share token is scoped to the authority, under the "shares" separator
    let pid = Pubkey::new_from_array([14u8; 32]);
    let (expected_shares, _) =
        Pubkey::find_program_address(&[b"shares", &authority.bytes], &pid);
    assert_eq!(vault.shares_mint.bytes, expected_shares.to_bytes());
}

#[test]
fn account_id_equality_is_by_bytes() {
    let a = AccountId::new([1u8; 32]);
    let b = AccountId::new([1u8; 32]);
    let mut c_bytes = [1u8; 32];
    c_bytes[31] = 2;
    let c = AccountId::new(c_bytes);
    assert!(a.same_as(&b));
    assert!(!a.same_as(&c));
}
