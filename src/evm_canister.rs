//! The nonce counter shared by every outgoing transaction, and the
//! mapping of the EVM canister's replies to the bridge's results.

use crate::account::{Account, AccountState};
use crate::codec::{hex_of, to_hex_text};
use crate::did::{u256_max, BasicAccount, TransactionParams, H160, U256};
use crate::error::{Error, EvmError, RejectionCode, TransactionPoolError};
use vstd::prelude::*;

verus! {

/// Tokens that the EVM canister mints to the account being registered.
pub const REGISTRATION_FEE: u64 = 100_000;

/// Gas limit stamped on every outgoing transaction.
pub const DEFAULT_GAS_LIMIT: u64 = 30_000_000;

/// Why a call to the EVM canister did not complete.
pub type CallRejection = (RejectionCode, String);

/// Reply of an EVM canister method that can fail on its own account.
pub type EvmResult<T> = Result<T, EvmError>;

/// Arguments of the EVM canister's `call_message`.
#[derive(Debug, Clone, PartialEq, Eq)]
pub struct CallMessageRequest {
    pub params: TransactionParams,
    pub to: H160,
    /// Call data as lowercase hexadecimal text.
    pub data: String,
}

/// Arguments of the EVM canister's `create_contract`.
#[derive(Debug, Clone, PartialEq, Eq)]
pub struct CreateContractRequest {
    pub params: TransactionParams,
    /// Creation payload as lowercase hexadecimal text.
    pub code: String,
}

/// The nonce that an error of the EVM canister reports as expected, if any.
pub open spec fn reported_nonce(e: EvmError) -> Option<U256> {
    match e {
        EvmError::TransactionPool(TransactionPoolError::InvalidNonce { expected, .. }) => Some(
            expected,
        ),
        _ => None,
    }
}

/// The counter after a reply: the nonce that an error of the EVM canister
/// reports as expected, or else the counter as it was.
pub open spec fn nonce_after_reply<T>(nonce: nat, result: Result<EvmResult<T>, CallRejection>) -> nat {
    match result {
        Ok(Err(e)) => match reported_nonce(e) {
            Some(expected) => expected@,
            None => nonce,
        },
        _ => nonce,
    }
}

/// Handing out nonce `n` moves the counter from `before` to `after`.
pub open spec fn issues(before: nat, n: nat, after: nat) -> bool {
    n == before && after == before + 1
}

/// Nonces handed out one after another by `next_nonce` (whose result and
/// counters are related by `issues`), with no reconciliation between them,
/// strictly increase: each is the one before plus one.
pub proof fn successive_nonces_increase(c0: nat, n1: nat, c1: nat, n2: nat, c2: nat)
    requires
        issues(c0, n1, c1),
        issues(c1, n2, c2),
    ensures
        n1 < n2,
        n2 == n1 + 1,
        n2 < c2,
{
}

/// How a transaction is stamped: with the registered account as sender and
/// the counter's value as nonce, after which the counter moves on by one.
/// Without a registered account, or with the counter at its largest value,
/// nothing is stamped and the counter stays.
pub open spec fn stamps(
    account: AccountState,
    nonce: nat,
    value: nat,
    r: Result<TransactionParams, Error>,
    next: nat,
) -> bool {
    match account {
        AccountState::Registered(from) => if nonce < u256_max() {
            &&& next == nonce + 1
            &&& r matches Ok(p)
            &&& p.from == from
            &&& p.value@ == value
            &&& p.gas_limit == DEFAULT_GAS_LIMIT
            &&& p.gas_price is None
            &&& p.nonce@ == nonce
        } else {
            next == nonce && r == Err::<TransactionParams, Error>(Error::NonceOverflow)
        },
        _ => next == nonce && r == Err::<TransactionParams, Error>(Error::AccountNotRegistered),
    }
}

pub open spec fn call_message_params(r: Result<CallMessageRequest, Error>) -> Result<
    TransactionParams,
    Error,
> {
    match r {
        Ok(q) => Ok(q.params),
        Err(e) => Err(e),
    }
}

pub open spec fn create_contract_params(r: Result<CreateContractRequest, Error>) -> Result<
    TransactionParams,
    Error,
> {
    match r {
        Ok(q) => Ok(q.params),
        Err(e) => Err(e),
    }
}

/// Gateway to the EVM canister. Holds the nonce counter, which equals the next
/// nonce the EVM canister is expected to accept from this canister.
pub struct EvmCanisterImpl {
    nonce: U256,
}

impl View for EvmCanisterImpl {
    type V = nat;

    /// The value of the nonce counter.
    closed spec fn view(&self) -> nat {
        self.nonce@
    }
}

impl EvmCanisterImpl {
    /// A gateway whose counter starts at one.
    pub fn new() -> (r: EvmCanisterImpl)
        ensures
            r@ == 1,
    {
        EvmCanisterImpl { nonce: U256::one() }
    }

    /// A gateway over a counter that was kept from an earlier run.
    pub fn with_nonce(nonce: U256) -> (r: EvmCanisterImpl)
        ensures
            r@ == nonce@,
    {
        EvmCanisterImpl { nonce }
    }

    /// The counter's current value.
    pub fn nonce(&self) -> (r: U256)
        ensures
            r@ == self@,
    {
        self.nonce
    }

    /// Hands out the counter's value and moves the counter on by one. Fails,
    /// leaving the counter, only when it is at the largest 256-bit value.
    pub fn next_nonce(&mut self) -> (r: Result<U256, Error>)
        ensures
            old(self)@ < u256_max() ==> {
                &&& r matches Ok(n)
                &&& issues(old(self)@, n@, final(self)@)
            },
            old(self)@ >= u256_max() ==> {
                &&& r == Err::<U256, Error>(Error::NonceOverflow)
                &&& final(self)@ == old(self)@
            },
    {
        let current = self.nonce;
        match current.checked_increment() {
            Some(next) => {
                self.nonce = next;
                Ok(current)
            },
            None => Err(Error::NonceOverflow),
        }
    }

    /// Overwrites the counter with the nonce that the EVM canister expects.
    pub fn reconcile(&mut self, expected: U256)
        ensures
            final(self)@ == expected@,
    {
        self.nonce = expected;
    }

    /// Maps the outcome of a call whose reply carries no error of its own.
    pub fn process_call<T>(&self, result: Result<T, CallRejection>) -> (r: Result<T, Error>)
        ensures
            result matches Ok(v) ==> r == Ok::<T, Error>(v),
            result matches Err((code, message)) ==> r == Err::<T, Error>(
                Error::CallFailed(code, message),
            ),
    {
        match result {
            Ok(v) => Ok(v),
            Err((code, message)) => Err(Error::CallFailed(code, message)),
        }
    }

    /// Maps the outcome of a call whose reply may carry an error of the
    /// EVM canister. An invalid-nonce error first sets the counter to the nonce
    /// that the EVM canister expects; the error is returned all the same.
    pub fn process_call_result<T>(&mut self, result: Result<EvmResult<T>, CallRejection>) -> (r:
        Result<T, Error>)
        ensures
            result matches Ok(Ok(v)) ==> r == Ok::<T, Error>(v),
            result matches Ok(Err(e)) ==> r == Err::<T, Error>(Error::Evm(e)),
            result matches Err((code, message)) ==> r == Err::<T, Error>(
                Error::CallFailed(code, message),
            ),
            final(self)@ == nonce_after_reply(old(self)@, result),
    {
        match self.process_call(result) {
            Err(e) => Err(e),
            Ok(Ok(v)) => Ok(v),
            Ok(Err(e)) => {
                if let EvmError::TransactionPool(TransactionPoolError::InvalidNonce { expected, .. }) =
                    &e {
                    self.reconcile(*expected);
                }
                Err(Error::Evm(e))
            },
        }
    }

    /// The balance in the reply of `account_basic`.
    pub fn get_balance(&self, reply: Result<BasicAccount, CallRejection>) -> (r: Result<U256, Error>)
        ensures
            reply matches Ok(acc) ==> r == Ok::<U256, Error>(acc.balance),
            reply matches Err((code, message)) ==> r == Err::<U256, Error>(
                Error::CallFailed(code, message),
            ),
    {
        match self.process_call(reply) {
            Ok(acc) => Ok(acc.balance),
            Err(e) => Err(e),
        }
    }

    /// Sender, value, gas and nonce for an outgoing transaction; takes a nonce.
    pub fn get_tx_params(&mut self, account: &Account, value: U256) -> (r: Result<
        TransactionParams,
        Error,
    >)
        ensures
            stamps(account@, old(self)@, value@, r, final(self)@),
    {
        let from = match account.get_account() {
            Ok(from) => from,
            Err(e) => return Err(e),
        };
        match self.next_nonce() {
            Ok(nonce) => Ok(
                TransactionParams {
                    from,
                    value,
                    gas_limit: DEFAULT_GAS_LIMIT,
                    gas_price: None,
                    nonce,
                },
            ),
            Err(e) => Err(e),
        }
    }

    /// Arguments for calling contract `to` with `data`; takes a nonce.
    pub fn transact(&mut self, account: &Account, value: U256, to: H160, data: &Vec<u8>) -> (r:
        Result<CallMessageRequest, Error>)
        ensures
            stamps(account@, old(self)@, value@, call_message_params(r), final(self)@),
            r matches Ok(q) ==> q.to == to && q.data@ == hex_of(data@),
    {
        match self.get_tx_params(account, value) {
            Ok(params) => Ok(CallMessageRequest { params, to, data: to_hex_text(data) }),
            Err(e) => Err(e),
        }
    }

    /// Arguments for creating a contract from `code`; takes a nonce.
    pub fn create_contract(&mut self, account: &Account, value: U256, code: &Vec<u8>) -> (r:
        Result<CreateContractRequest, Error>)
        ensures
            stamps(account@, old(self)@, value@, create_contract_params(r), final(self)@),
            r matches Ok(q) ==> q.code@ == hex_of(code@),
    {
        match self.get_tx_params(account, value) {
            Ok(params) => Ok(CreateContractRequest { params, code: to_hex_text(code) }),
            Err(e) => Err(e),
        }
    }
}

} // verus!
