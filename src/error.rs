//! Errors of the bridge and of the EVM canister it calls.

use crate::did::{H160, U256};
use vstd::prelude::*;

verus! {

/// Why an inter-canister call did not complete.
#[derive(Debug, Clone, Copy, PartialEq, Eq)]
pub enum RejectionCode {
    NoError,
    SysFatal,
    SysTransient,
    DestinationInvalid,
    CanisterReject,
    CanisterError,
    Unknown,
}

/// Errors of the EVM canister's transaction pool.
#[derive(Debug, Clone, Copy, PartialEq, Eq)]
pub enum TransactionPoolError {
    /// The submitted nonce is not the one the pool expects for the sender.
    InvalidNonce { expected: U256, actual: U256 },
    TransactionAlreadyExists,
    TxReplacementUnderpriced,
    TooManyTransactions,
}

/// Application-level errors that the EVM canister returns inside a reply.
#[derive(Debug, Clone, PartialEq, Eq)]
pub enum EvmError {
    Internal(String),
    InsufficientBalance { actual: U256, expected: U256 },
    NotAuthorized,
    TransactionPool(TransactionPoolError),
}

/// Errors of the bridge.
#[derive(Debug, Clone, PartialEq, Eq)]
pub enum Error {
    /// The caller is not the owner.
    NotAuthorized,
    /// Registration was asked for while it is in progress or done.
    AccountAlreadyRegistered,
    /// The EVM canister reports the sender's address as registered already.
    AddressAlreadyRegistered(H160),
    /// The operation needs a registered account.
    AccountNotRegistered,
    /// Deployment was asked for while it is in progress or done.
    ContractAlreadyRegistered,
    /// The operation needs a deployed contract, or a pending deployment.
    ContractNotRegistered,
    /// The deployment transaction has no successful receipt.
    TransactionFailed,
    /// A reply of the registration workflow did not answer its current step.
    UnexpectedReply,
    /// The contract code is not valid hexadecimal text.
    InvalidContractCode,
    /// The arguments of a contract call do not match the function's parameters.
    EncodingFailed,
    /// The nonce counter is at the largest 256-bit value.
    NonceOverflow,
    /// A price pair of this name exists already.
    PairExist,
    /// No price pair of this name exists.
    PairNotExist,
    /// The price pair has no observation yet.
    PriceNotAvailable,
    /// The call to the EVM canister did not complete.
    CallFailed(RejectionCode, String),
    /// The EVM canister completed the call and returned an error.
    Evm(EvmError),
}

} // verus!
