//! Verified building blocks for token contracts: a fungible-token ledger with
//! an owner/spender allowance table, and detached-signature verification.

pub mod crypto;
pub mod primitives;
pub mod tokens;
