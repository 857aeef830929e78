//! Verified core of a price-oracle canister that registers itself with an EVM
//! canister, deploys an aggregator contract there and keeps it updated.

pub mod account;
pub mod canister;
pub mod codec;
pub mod contract;
pub mod did;
pub mod endian;
pub mod error;
pub mod evm_canister;
pub mod pair_price;
