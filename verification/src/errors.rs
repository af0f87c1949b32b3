use vstd::prelude::*;

verus! {

/// Cap violations: a user-supplied amount exceeds a configured per-vault bound.
/// The operation that raises one of these aborts with no state change.
#[derive(Clone, Copy, Debug, PartialEq, Eq, Structural)]
pub enum GeniusVaultErrors {
    /// A deposit's asset amount reached the vault's `max_deposit` bound.
    ExceededMaxDeposit,
    /// The shares computed for a deposit reached the vault's `max_shares` bound.
    ExceededMaxMint,
    /// A withdrawal's asset amount reached the vault's withdrawal bound.
    ExceededMaxWithdraw,
    /// A withdrawal's share amount reached the vault's `max_shares` bound.
    ExceededMaxBurn,
}

/// Every way a vault operation can fail. Each failure aborts the whole
/// operation: the ledger is left exactly as it was.
#[derive(Clone, Copy, Debug, PartialEq, Eq, Structural)]
pub enum VaultError {
    /// A configured cap was violated; says which one.
    Exceeded(GeniusVaultErrors),
    /// A pricing multiplication overflowed, a division had a zero divisor,
    /// or a balance update would leave the representable range.
    ArithmeticOverflow,
    /// A transfer or burn asked for more than the source balance holds
    /// (the ledger primitive refuses it).
    InsufficientBalance,
}

} // verus!
