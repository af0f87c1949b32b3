use vstd::prelude::*;
use crate::errors::VaultError;

verus! {

/// Shares owed for a deposit of `amount` against a vault holding `holdings`
/// assets with `supply` shares outstanding. The very first deposit on an
/// empty vault sets a one-to-one price; afterwards the amount is scaled by
/// the current holdings-to-supply ratio, rounding down.
pub open spec fn spec_shares_for_deposit(amount: int, holdings: int, supply: int) -> int {
    if supply == 0 && holdings == 0 {
        amount
    } else {
        (amount * holdings) / supply
    }
}

/// Assets owed for burning `shares` against the same ratio, rounding down.
pub open spec fn spec_assets_for_withdraw(shares: int, holdings: int, supply: int) -> int {
    (shares * holdings) / supply
}

/// When the deposit conversion is computable on 64-bit values: either the
/// bootstrap branch applies, or the scaled product fits in a `u64` and the
/// divisor is nonzero.
pub open spec fn deposit_pricing_ok(amount: int, holdings: int, supply: int) -> bool {
    (supply == 0 && holdings == 0) || (supply > 0 && amount * holdings <= u64::MAX)
}

/// When the withdrawal conversion is computable on 64-bit values.
pub open spec fn withdraw_pricing_ok(shares: int, holdings: int, supply: int) -> bool {
    supply > 0 && shares * holdings <= u64::MAX
}

/// Convert a deposited asset amount into the shares to mint.
///
/// The multiplication is overflow-checked and the division is zero-checked;
/// either failure rejects the conversion instead of saturating.
pub fn shares_for_deposit(amount: u64, holdings: u64, supply: u64) -> (r: Result<u64, VaultError>)
    ensures
        deposit_pricing_ok(amount as int, holdings as int, supply as int) ==> r == Ok::<
            u64,
            VaultError,
        >(spec_shares_for_deposit(amount as int, holdings as int, supply as int) as u64),
        !deposit_pricing_ok(amount as int, holdings as int, supply as int) ==> r == Err::<
            u64,
            VaultError,
        >(VaultError::ArithmeticOverflow),
{
    if supply == 0 && holdings == 0 {
        Ok(amount)
    } else {
        match amount.checked_mul(holdings) {
            Some(product) => match product.checked_div(supply) {
                Some(shares) => Ok(shares),
                None => Err(VaultError::ArithmeticOverflow),
            },
            None => Err(VaultError::ArithmeticOverflow),
        }
    }
}

/// Convert a burned share amount into the assets to pay out.
pub fn assets_for_withdraw(shares: u64, holdings: u64, supply: u64) -> (r: Result<u64, VaultError>)
    ensures
        withdraw_pricing_ok(shares as int, holdings as int, supply as int) ==> r == Ok::<
            u64,
            VaultError,
        >(spec_assets_for_withdraw(shares as int, holdings as int, supply as int) as u64),
        !withdraw_pricing_ok(shares as int, holdings as int, supply as int) ==> r == Err::<
            u64,
            VaultError,
        >(VaultError::ArithmeticOverflow),
{
    match shares.checked_mul(holdings) {
        Some(product) => match product.checked_div(supply) {
            Some(amount) => Ok(amount),
            None => Err(VaultError::ArithmeticOverflow),
        },
        None => Err(VaultError::ArithmeticOverflow),
    }
}

} // verus!
