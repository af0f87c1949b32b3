use vstd::prelude::*;
use vstd::arithmetic::div_mod::{
    lemma_div_is_ordered, lemma_div_multiples_vanish, lemma_div_pos_is_pos,
    lemma_fundamental_div_mod, lemma_mod_bound,
};
use vstd::arithmetic::mul::lemma_mul_inequality;
use crate::account_id::AccountId;
use crate::authority::{
    derive_authority, derive_shares_mint, pda_candidate, pda_lookup, spec_config_seeds,
    spec_shares_seeds,
};
use crate::errors::{GeniusVaultErrors, VaultError};
use crate::pricing::{
    assets_for_withdraw, deposit_pricing_ok, shares_for_deposit, spec_assets_for_withdraw,
    spec_shares_for_deposit, withdraw_pricing_ok,
};

verus! {

/// The fee recorded at vault creation, in basis points. It is persisted for
/// forward compatibility and never enters the pricing computation.
pub const INITIAL_FEE_BPS: u16 = 300;

/// The static parameters of one vault, created once per underlying asset and
/// immutable afterwards.
#[derive(Clone, Copy, Debug)]
pub struct VaultConfig {
    /// Fee in basis points; stored but not applied by the pricing engine.
    pub fee: u16,
    /// Identity of the underlying asset this vault custodies.
    pub mint: AccountId,
    /// Exclusive upper bound on a single deposit's asset amount.
    pub max_deposit: u64,
    /// Exclusive upper bound on shares minted or burned in one operation.
    pub max_shares: u64,
    /// Persisted salt that rederives the share token's identity.
    pub shares_bump: u8,
    /// Persisted salt that rederives the vault's authority identity.
    pub bump: u8,
}

/// The mutable balances one deposit or withdrawal touches: the assets held in
/// custody, the shares outstanding, and the acting user's share balance.
#[derive(Clone, Copy, Debug, PartialEq, Eq)]
pub struct VaultLedger {
    /// Assets in the vault's holding record.
    pub holdings: u64,
    /// Total shares outstanding.
    pub supply: u64,
    /// The acting user's share balance.
    pub user_shares: u64,
}

impl VaultLedger {
    /// One user never holds more shares than exist.
    pub open spec fn wf(&self) -> bool {
        self.user_shares <= self.supply
    }
}

/// The exact outcome of a deposit of `amount` against `cfg` on `ledger`:
/// either the shares minted, or the first failure in the operation's order
/// (deposit cap, holding-record overflow, pricing, mint cap, supply
/// overflow). Every failure leaves the ledger untouched.
pub open spec fn spec_deposit_result(cfg: VaultConfig, ledger: VaultLedger, amount: u64) -> Result<
    u64,
    VaultError,
> {
    let shares = spec_shares_for_deposit(
        amount as int,
        ledger.holdings as int,
        ledger.supply as int,
    );
    if amount >= cfg.max_deposit {
        Err(VaultError::Exceeded(GeniusVaultErrors::ExceededMaxDeposit))
    } else if ledger.holdings + amount > u64::MAX {
        Err(VaultError::ArithmeticOverflow)
    } else if !deposit_pricing_ok(amount as int, ledger.holdings as int, ledger.supply as int) {
        Err(VaultError::ArithmeticOverflow)
    } else if shares >= cfg.max_shares {
        Err(VaultError::Exceeded(GeniusVaultErrors::ExceededMaxMint))
    } else if ledger.supply + shares > u64::MAX {
        Err(VaultError::ArithmeticOverflow)
    } else {
        Ok(shares as u64)
    }
}

/// The exact outcome of a withdrawal of `shares` against `cfg` on `ledger`:
/// either the assets paid out, or the first failure in the operation's order
/// (burn cap, the burner's balance, pricing).
pub open spec fn spec_withdraw_result(cfg: VaultConfig, ledger: VaultLedger, shares: u64) -> Result<
    u64,
    VaultError,
> {
    let amount = spec_assets_for_withdraw(
        shares as int,
        ledger.holdings as int,
        ledger.supply as int,
    );
    if shares >= cfg.max_shares {
        Err(VaultError::Exceeded(GeniusVaultErrors::ExceededMaxBurn))
    } else if shares > ledger.user_shares {
        Err(VaultError::InsufficientBalance)
    } else if !withdraw_pricing_ok(shares as int, ledger.holdings as int, ledger.supply as int) {
        Err(VaultError::ArithmeticOverflow)
    } else {
        Ok(amount as u64)
    }
}

impl VaultLedger {
    /// Move `amount` of the underlying asset through the vault's holding
    /// record: into it for a deposit (`to_vault`), out of it for a
    /// withdrawal. An outgoing move is authorized by the vault's derived
    /// authority, an incoming one by the depositor; the ledger primitive
    /// refuses an outgoing move the holding record cannot cover.
    pub fn transfer_tokens(&mut self, amount: u64, to_vault: bool) -> (r: Result<(), VaultError>)
        ensures
            final(self).supply == old(self).supply,
            final(self).user_shares == old(self).user_shares,
            to_vault ==> (if old(self).holdings + amount <= u64::MAX {
                r == Ok::<(), VaultError>(()) && final(self).holdings == old(self).holdings
                    + amount
            } else {
                r == Err::<(), VaultError>(VaultError::ArithmeticOverflow) && *final(self) == *old(
                    self,
                )
            }),
            !to_vault ==> (if amount <= old(self).holdings {
                r == Ok::<(), VaultError>(()) && final(self).holdings == old(self).holdings
                    - amount
            } else {
                r == Err::<(), VaultError>(VaultError::InsufficientBalance) && *final(self) == *old(
                    self,
                )
            }),
    {
        if to_vault {
            if amount > u64::MAX - self.holdings {
                return Err(VaultError::ArithmeticOverflow);
            }
            self.holdings = self.holdings + amount;
        } else {
            if amount > self.holdings {
                return Err(VaultError::InsufficientBalance);
            }
            self.holdings = self.holdings - amount;
        }
        Ok(())
    }

    /// Move a deposit's assets from the depositor into the vault's holding
    /// record, authorized by the depositor.
    pub fn deposit_tokens(&mut self, amount: u64) -> (r: Result<(), VaultError>)
        ensures
            final(self).supply == old(self).supply,
            final(self).user_shares == old(self).user_shares,
            if old(self).holdings + amount <= u64::MAX {
                r == Ok::<(), VaultError>(()) && final(self).holdings == old(self).holdings
                    + amount
            } else {
                r == Err::<(), VaultError>(VaultError::ArithmeticOverflow) && *final(self) == *old(
                    self,
                )
            },
    {
        self.transfer_tokens(amount, true)
    }

    /// Mint `amount` shares to the acting user, signed by the vault's derived
    /// authority, after enforcing the per-operation mint cap.
    pub fn mint_shares(&mut self, cfg: &VaultConfig, amount: u64) -> (r: Result<(), VaultError>)
        requires
            old(self).wf(),
        ensures
            final(self).wf(),
            final(self).holdings == old(self).holdings,
            if amount >= cfg.max_shares {
                r == Err::<(), VaultError>(
                    VaultError::Exceeded(GeniusVaultErrors::ExceededMaxMint),
                ) && *final(self) == *old(self)
            } else if old(self).supply + amount > u64::MAX {
                r == Err::<(), VaultError>(VaultError::ArithmeticOverflow) && *final(self) == *old(
                    self,
                )
            } else {
                r == Ok::<(), VaultError>(()) && final(self).supply == old(self).supply + amount
                    && final(self).user_shares == old(self).user_shares + amount
            },
    {
        if !(amount < cfg.max_shares) {
            return Err(VaultError::Exceeded(GeniusVaultErrors::ExceededMaxMint));
        }
        if amount > u64::MAX - self.supply {
            return Err(VaultError::ArithmeticOverflow);
        }
        self.supply = self.supply + amount;
        self.user_shares = self.user_shares + amount;
        Ok(())
    }

    /// Burn `amount` shares from the acting user's balance, signed by the
    /// vault's derived authority; the ledger primitive refuses a burn the
    /// balance cannot cover.
    pub fn burn_shares(&mut self, amount: u64) -> (r: Result<(), VaultError>)
        requires
            old(self).wf(),
        ensures
            final(self).wf(),
            final(self).holdings == old(self).holdings,
            if amount > old(self).user_shares {
                r == Err::<(), VaultError>(VaultError::InsufficientBalance) && *final(self) == *old(
                    self,
                )
            } else {
                r == Ok::<(), VaultError>(()) && final(self).supply == old(self).supply - amount
                    && final(self).user_shares == old(self).user_shares - amount
            },
    {
        if amount > self.user_shares {
            return Err(VaultError::InsufficientBalance);
        }
        self.user_shares = self.user_shares - amount;
        self.supply = self.supply - amount;
        Ok(())
    }

    /// Deposit `amount` of the underlying asset: enforce the deposit cap,
    /// move the assets into custody, and mint the shares the pricing engine
    /// owes for them, under the mint cap. Shares are priced against the
    /// balances the operation started from; the incoming transfer settles
    /// within the same atomic operation and does not reprice it. Any failure
    /// leaves every balance exactly as it was.
    pub fn deposit(&mut self, cfg: &VaultConfig, amount: u64) -> (r: Result<u64, VaultError>)
        requires
            old(self).wf(),
        ensures
            final(self).wf(),
            r == spec_deposit_result(*cfg, *old(self), amount),
            r is Err ==> *final(self) == *old(self),
            r matches Ok(shares) ==> *final(self) == (VaultLedger {
                holdings: (old(self).holdings + amount) as u64,
                supply: (old(self).supply + shares) as u64,
                user_shares: (old(self).user_shares + shares) as u64,
            }),
    {
        if !(amount < cfg.max_deposit) {
            return Err(VaultError::Exceeded(GeniusVaultErrors::ExceededMaxDeposit));
        }
        if amount > u64::MAX - self.holdings {
            return Err(VaultError::ArithmeticOverflow);
        }
        let shares = match shares_for_deposit(amount, self.holdings, self.supply) {
            Ok(s) => s,
            Err(e) => { return Err(e); },
        };
        if !(shares < cfg.max_shares) {
            return Err(VaultError::Exceeded(GeniusVaultErrors::ExceededMaxMint));
        }
        if shares > u64::MAX - self.supply {
            return Err(VaultError::ArithmeticOverflow);
        }
        match self.transfer_tokens(amount, true) {
            Ok(()) => {},
            Err(_) => {
                proof {
                    assert(false);
                }
            },
        }
        match self.mint_shares(cfg, shares) {
            Ok(()) => {},
            Err(_) => {
                proof {
                    assert(false);
                }
            },
        }
        Ok(shares)
    }

    /// Withdraw by burning `shares`: enforce the burn cap, burn the shares,
    /// and move the assets the pricing engine owes for them out of custody,
    /// signed by the vault's derived authority. The payout is priced against
    /// the balances the operation started from, and never exceeds the
    /// vault's holdings. Any failure leaves every balance exactly as it was.
    pub fn withdraw(&mut self, cfg: &VaultConfig, shares: u64) -> (r: Result<u64, VaultError>)
        requires
            old(self).wf(),
        ensures
            final(self).wf(),
            r == spec_withdraw_result(*cfg, *old(self), shares),
            r is Err ==> *final(self) == *old(self),
            r matches Ok(amount) ==> *final(self) == (VaultLedger {
                holdings: (old(self).holdings - amount) as u64,
                supply: (old(self).supply - shares) as u64,
                user_shares: (old(self).user_shares - shares) as u64,
            }),
    {
        if !(shares < cfg.max_shares) {
            return Err(VaultError::Exceeded(GeniusVaultErrors::ExceededMaxBurn));
        }
        if shares > self.user_shares {
            return Err(VaultError::InsufficientBalance);
        }
        let amount = match assets_for_withdraw(shares, self.holdings, self.supply) {
            Ok(a) => a,
            Err(e) => { return Err(e); },
        };
        proof {
            lemma_payout_within_holdings(
                shares as int,
                self.holdings as int,
                self.supply as int,
            );
        }
        match self.burn_shares(shares) {
            Ok(()) => {},
            Err(_) => {
                proof {
                    assert(false);
                }
            },
        }
        match self.transfer_tokens(amount, false) {
            Ok(()) => {},
            Err(_) => {
                proof {
                    assert(false);
                }
            },
        }
        Ok(amount)
    }
}

/// A burn of no more shares than exist never prices a payout above what the
/// vault holds.
proof fn lemma_payout_within_holdings(shares: int, holdings: int, supply: int)
    requires
        0 <= shares,
        0 <= holdings,
        0 < supply,
        shares <= supply,
    ensures
        0 <= (shares * holdings) / supply <= holdings,
{
    lemma_div_pos_is_pos(shares * holdings, supply);
    lemma_mul_inequality(shares, supply, holdings);
    lemma_div_is_ordered(shares * holdings, supply * holdings, supply);
    lemma_div_multiples_vanish(holdings, supply);
}

/// Law: a deposit followed at once by a withdrawal of every minted share
/// pays out at most the deposited amount, so the vault's holdings never
/// shrink over the pair — rounding dust stays with the vault. It holds on
/// every vault whose holdings do not exceed its share supply (every vault
/// grown purely by these operations from an empty start stays in that
/// region), whenever the withdrawal is priced at all.
pub proof fn lemma_deposit_withdraw_no_extraction(amount: int, holdings: int, supply: int)
    requires
        0 <= amount,
        0 <= holdings,
        holdings <= supply,
    ensures
        ({
            let minted = spec_shares_for_deposit(amount, holdings, supply);
            let payout = spec_assets_for_withdraw(minted, holdings + amount, supply + minted);
            supply + minted > 0 ==> 0 <= payout <= amount
        }),
{
    let minted = spec_shares_for_deposit(amount, holdings, supply);
    if supply == 0 && holdings == 0 {
        if amount > 0 {
            lemma_div_multiples_vanish(amount, amount);
        }
    } else {
        let p = amount * holdings;
        lemma_div_pos_is_pos(p, supply);
        lemma_fundamental_div_mod(p, supply);
        lemma_mod_bound(p, supply);
        if supply + minted > 0 {
            assert(minted * (holdings + amount) <= amount * (supply + minted))
                by (nonlinear_arith)
                requires
                    0 <= amount,
                    0 <= holdings,
                    holdings <= supply,
                    0 <= minted,
                    supply * minted <= amount * holdings,
            ;
            lemma_div_pos_is_pos(minted * (holdings + amount), supply + minted);
            lemma_div_is_ordered(
                minted * (holdings + amount),
                amount * (supply + minted),
                supply + minted,
            );
            lemma_div_multiples_vanish(amount, supply + minted);
        }
    }
}

/// The same law at the level of the two operations: whenever a deposit of
/// `amount` succeeds on a well-formed ledger whose holdings do not exceed
/// its supply, and withdrawing every minted share from the resulting ledger
/// succeeds as well, the payout is at most `amount` and the vault's holdings
/// end no lower than they began.
pub proof fn lemma_round_trip_keeps_holdings(cfg: VaultConfig, ledger: VaultLedger, amount: u64)
    requires
        ledger.wf(),
        ledger.holdings <= ledger.supply,
    ensures
        spec_deposit_result(cfg, ledger, amount) matches Ok(minted) ==> {
            let after = VaultLedger {
                holdings: (ledger.holdings + amount) as u64,
                supply: (ledger.supply + minted) as u64,
                user_shares: (ledger.user_shares + minted) as u64,
            };
            spec_withdraw_result(cfg, after, minted) matches Ok(payout) ==> payout <= amount
                && after.holdings - payout >= ledger.holdings
        },
{
    let a = amount as int;
    let h = ledger.holdings as int;
    let s = ledger.supply as int;
    lemma_deposit_withdraw_no_extraction(a, h, s);
}

/// Everything `initialize` creates for a new vault: its static parameters,
/// its derived authority, and its share-token identity.
#[derive(Clone, Copy, Debug)]
pub struct InitializedVault {
    pub config: VaultConfig,
    pub authority: AccountId,
    pub shares_mint: AccountId,
}

/// One-time creation of a vault for one underlying asset: derive the vault's
/// keyless authority and its share token, persist both bumps, and fix the
/// initial parameters (fee of 300 basis points, caps at the largest
/// representable amount). `None` is the fatal derivation failure, possible
/// only here: afterwards the persisted bumps rederive both identities.
pub fn initialize(mint: &AccountId, program_id: &AccountId) -> (r: Option<InitializedVault>)
    ensures
        r is Some <==> (pda_lookup(spec_config_seeds(mint@), program_id@) is Some && (pda_lookup(
            spec_config_seeds(mint@),
            program_id@,
        ) matches Some(p) && pda_lookup(spec_shares_seeds(p.0), program_id@) is Some)),
        r matches Some(v) ==> {
            &&& pda_lookup(spec_config_seeds(mint@), program_id@) == Some((
                v.authority@,
                v.config.bump,
            ))
            &&& pda_candidate(spec_config_seeds(mint@), v.config.bump, program_id@) == Some(
                v.authority@,
            )
            &&& pda_lookup(spec_shares_seeds(v.authority@), program_id@) == Some((
                v.shares_mint@,
                v.config.shares_bump,
            ))
            &&& v.config.fee == INITIAL_FEE_BPS
            &&& v.config.mint == *mint
            &&& v.config.max_deposit == u64::MAX
            &&& v.config.max_shares == u64::MAX
        },
{
    let (authority, bump) = match derive_authority(mint, program_id) {
        Some(p) => p,
        None => { return None; },
    };
    let (shares_mint, shares_bump) = match derive_shares_mint(&authority, program_id) {
        Some(p) => p,
        None => { return None; },
    };
    Some(
        InitializedVault {
            config: VaultConfig {
                fee: INITIAL_FEE_BPS,
                mint: *mint,
                max_deposit: u64::MAX,
                max_shares: u64::MAX,
                shares_bump,
                bump,
            },
            authority,
            shares_mint,
        },
    )
}

} // verus!
