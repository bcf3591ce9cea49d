//! Token ledgers.

pub mod erc20;
pub mod laws;
pub mod ledger;
pub mod sum;
mod table;
