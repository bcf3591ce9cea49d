//! Plain value types shared by the ledger: account addresses and 256-bit
//! unsigned amounts.

pub mod address;
pub mod u256;

pub use address::Address;
pub use u256::U256;
