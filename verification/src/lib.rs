//! Accounting and authority-delegation core of a custodial vault: it prices
//! deposits of a fungible asset into proportional claim shares and back,
//! sequences the deposit and withdrawal ledger updates under per-vault caps,
//! derives the vault's keyless signing authority, and builds the downstream
//! staking call that substitutes that authority into the outgoing
//! authorization list.

pub mod account_id;
pub mod authority;
pub mod errors;
pub mod forwarding;
pub mod pricing;
pub mod vault;
