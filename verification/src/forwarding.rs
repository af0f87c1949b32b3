use vstd::prelude::*;
use crate::account_id::AccountId;

verus! {

/// One party of the triggering call, as the current call sees it: its
/// identity and whether it signed the current call.
#[derive(Clone, Copy, Debug, PartialEq, Eq)]
pub struct ObservedAccount {
    pub id: AccountId,
    pub is_signer: bool,
}

/// The fixed schema of the downstream custody contract's staking call,
/// mapped one-to-one to the vault's own accounts, each as observed in the
/// triggering call.
#[derive(Clone, Copy, Debug)]
pub struct StakeLiquidity {
    pub user: ObservedAccount,
    pub ata_user: ObservedAccount,
    pub ata_vault: ObservedAccount,
    pub shares_mint: ObservedAccount,
    pub user_shares_ata: ObservedAccount,
    pub vault: ObservedAccount,
    pub usdc_mint: ObservedAccount,
    pub token_program: ObservedAccount,
    pub associated_token_program: ObservedAccount,
    pub system_program: ObservedAccount,
}

/// The arguments of the downstream staking call.
#[derive(Clone, Copy, Debug)]
pub struct StakeLiquidityArgs {
    pub amount: u64,
}

/// One entry of an outgoing call's authorization list: a party, whether it
/// must sign the outgoing call, and whether the call may mutate it.
#[derive(Clone, Copy, Debug, PartialEq, Eq)]
pub struct CallAccount {
    pub id: AccountId,
    pub is_signer: bool,
    pub is_writable: bool,
}

/// An outgoing call, ready for dispatch: the downstream contract, its
/// authorization list, and its encoded arguments.
#[derive(Clone, Debug)]
pub struct ForwardedCall {
    pub program_id: AccountId,
    pub accounts: Vec<CallAccount>,
    pub data: Vec<u8>,
}

/// One authorization entry as forwarding builds it: the signer flag is
/// copied from how the current call saw the party, except that a party equal
/// to the vault's derived authority is forcibly marked a required signer;
/// writability comes from the downstream schema.
pub open spec fn spec_forced_entry(a: ObservedAccount, authority: Seq<u8>, writable: bool) -> CallAccount {
    CallAccount { id: a.id, is_signer: a.is_signer || a.id@ == authority, is_writable: writable }
}

/// The downstream staking call's authorization list, in the schema's order,
/// with the authority override applied to every entry. Only the user's
/// asset record, the downstream custody record and the user's downstream
/// share record are writable.
pub open spec fn spec_stake_liquidity_accounts(x: StakeLiquidity, authority: Seq<u8>) -> Seq<
    CallAccount,
> {
    seq![
        spec_forced_entry(x.user, authority, false),
        spec_forced_entry(x.ata_user, authority, true),
        spec_forced_entry(x.ata_vault, authority, true),
        spec_forced_entry(x.shares_mint, authority, false),
        spec_forced_entry(x.user_shares_ata, authority, true),
        spec_forced_entry(x.vault, authority, false),
        spec_forced_entry(x.usdc_mint, authority, false),
        spec_forced_entry(x.token_program, authority, false),
        spec_forced_entry(x.associated_token_program, authority, false),
        spec_forced_entry(x.system_program, authority, false),
    ]
}

/// The staking call's argument bytes, laid out as the downstream contract
/// decodes them: the amount as eight little-endian bytes.
pub open spec fn spec_stake_args_bytes(amount: u64) -> Seq<u8> {
    seq![
        (amount & 0xff) as u8,
        ((amount >> 8) & 0xff) as u8,
        ((amount >> 16) & 0xff) as u8,
        ((amount >> 24) & 0xff) as u8,
        ((amount >> 32) & 0xff) as u8,
        ((amount >> 40) & 0xff) as u8,
        ((amount >> 48) & 0xff) as u8,
        ((amount >> 56) & 0xff) as u8,
    ]
}

/// Encode the staking call's arguments.
pub fn encode_stake_args(args: &StakeLiquidityArgs) -> (r: Vec<u8>)
    ensures
        r@ == spec_stake_args_bytes(args.amount),
{
    let amount = args.amount;
    let mut v: Vec<u8> = Vec::new();
    proof {
        assert((amount & 0xff) <= 0xff) by (bit_vector);
        assert(((amount >> 8) & 0xff) <= 0xff) by (bit_vector);
        assert(((amount >> 16) & 0xff) <= 0xff) by (bit_vector);
        assert(((amount >> 24) & 0xff) <= 0xff) by (bit_vector);
        assert(((amount >> 32) & 0xff) <= 0xff) by (bit_vector);
        assert(((amount >> 40) & 0xff) <= 0xff) by (bit_vector);
        assert(((amount >> 48) & 0xff) <= 0xff) by (bit_vector);
        assert(((amount >> 56) & 0xff) <= 0xff) by (bit_vector);
    }
    v.push((amount & 0xff) as u8);
    v.push(((amount >> 8) & 0xff) as u8);
    v.push(((amount >> 16) & 0xff) as u8);
    v.push(((amount >> 24) & 0xff) as u8);
    v.push(((amount >> 32) & 0xff) as u8);
    v.push(((amount >> 40) & 0xff) as u8);
    v.push(((amount >> 48) & 0xff) as u8);
    v.push(((amount >> 56) & 0xff) as u8);
    proof {
        assert(v@ =~= spec_stake_args_bytes(amount));
    }
    v
}

fn push_entry(
    list: &mut Vec<CallAccount>,
    account: &ObservedAccount,
    authority: &AccountId,
    writable: bool,
)
    ensures
        final(list)@ == old(list)@.push(spec_forced_entry(*account, authority@, writable)),
{
    let forced = account.is_signer || account.id.same_as(authority);
    list.push(CallAccount { id: account.id, is_signer: forced, is_writable: writable });
}

/// Build the downstream staking call for `amount`, forwarded after a
/// deposit. Every entry of the authorization list carries the signer flag
/// the triggering call saw for that party, except that any entry whose
/// identity equals the vault's derived authority is forcibly marked a
/// required signer — the override that lets the vault sign for its own
/// escrowed funds. Dispatching the call, with the derivation seeds attached
/// as proof material, is the host adapter's part.
pub fn after_deposit(
    accounts: &StakeLiquidity,
    vault_authority: &AccountId,
    pool_program: &AccountId,
    amount: u64,
) -> (r: ForwardedCall)
    ensures
        r.program_id@ == pool_program@,
        r.accounts@ == spec_stake_liquidity_accounts(*accounts, vault_authority@),
        r.data@ == spec_stake_args_bytes(amount),
        forall|i: int|
            0 <= i < r.accounts@.len() && r.accounts@[i].id@ == vault_authority@
                ==> r.accounts@[i].is_signer,
{
    let mut list: Vec<CallAccount> = Vec::new();
    push_entry(&mut list, &accounts.user, vault_authority, false);
    push_entry(&mut list, &accounts.ata_user, vault_authority, true);
    push_entry(&mut list, &accounts.ata_vault, vault_authority, true);
    push_entry(&mut list, &accounts.shares_mint, vault_authority, false);
    push_entry(&mut list, &accounts.user_shares_ata, vault_authority, true);
    push_entry(&mut list, &accounts.vault, vault_authority, false);
    push_entry(&mut list, &accounts.usdc_mint, vault_authority, false);
    push_entry(&mut list, &accounts.token_program, vault_authority, false);
    push_entry(&mut list, &accounts.associated_token_program, vault_authority, false);
    push_entry(&mut list, &accounts.system_program, vault_authority, false);
    proof {
        assert(list@ =~= spec_stake_liquidity_accounts(*accounts, vault_authority@));
    }
    let data = encode_stake_args(&StakeLiquidityArgs { amount });
    ForwardedCall { program_id: *pool_program, accounts: list, data }
}

} // verus!
