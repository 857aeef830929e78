//! Deployment of the aggregator contract in the EVM canister, confirmation of
//! its address from the transaction receipt, and calls of its functions.

use crate::account::Account;
use crate::codec::{
    abi_encoding, encode_constructor_call, encode_function_call, from_hex_text, hex_decoded, hex_of,
    is_hex_text, selector_of, token_fits, types_fit, AbiToken, AbiType,
};
use crate::did::{zero_bytes, TransactionReceipt, H160, H256, U256, U64};
use crate::error::Error;
use crate::evm_canister::{
    call_message_params, create_contract_params, stamps, CallMessageRequest, CreateContractRequest,
    EvmCanisterImpl,
};
use vstd::prelude::*;

verus! {

/// Name of the aggregator's function that adds a price pair.
pub const ADD_PAIR_NAME: &'static str = "addPair";

/// Name of the aggregator's function that records the latest prices.
pub const UPDATE_ANSWERS_NAME: &'static str = "updateAnswers";

/// Parameters of `addPair`: pair, decimal, description, version.
pub open spec fn add_pair_types() -> Seq<AbiType> {
    seq![AbiType::String, AbiType::Uint(8), AbiType::String, AbiType::Uint(256)]
}

/// Parameters of `updateAnswers`: pairs, timestamps, answers.
pub open spec fn update_answers_types() -> Seq<AbiType> {
    seq![AbiType::StringArray, AbiType::UintArray(256), AbiType::UintArray(256)]
}

/// Deployment status of the aggregator contract.
#[derive(Debug, Default, Clone, Copy, PartialEq, Eq)]
pub enum ContractStatus {
    #[default]
    Unregistered,
    RegistrationInProgress,
    Registered(H160),
}

/// A sequence of `n` bytes all equal to `b`.
pub open spec fn filled(n: nat, b: u8) -> Seq<u8> {
    Seq::new(n, |_i: int| b)
}

/// The 20 stored bytes of a status: zeros while unregistered, ones while in
/// progress, and the address once registered.
pub open spec fn status_bytes(status: ContractStatus) -> Seq<u8> {
    match status {
        ContractStatus::Unregistered => filled(20, 0),
        ContractStatus::RegistrationInProgress => filled(20, 1),
        ContractStatus::Registered(a) => a@,
    }
}

/// Whether 20 stored bytes stand for `status`: all zeros for unregistered,
/// all ones for in progress, and any other bytes for that address.
pub open spec fn stands_for(b: Seq<u8>, status: ContractStatus) -> bool {
    if b == filled(20, 0) {
        status == ContractStatus::Unregistered
    } else if b == filled(20, 1) {
        status == ContractStatus::RegistrationInProgress
    } else {
        status matches ContractStatus::Registered(a) && a@ == b
    }
}

/// Fills 20 bytes with `b`.
fn filled_bytes(b: u8) -> (r: Vec<u8>)
    ensures
        r@ == filled(20, b),
{
    let mut r: Vec<u8> = Vec::new();
    let mut i: usize = 0;
    while i < 20
        invariant
            i <= 20,
            r@ == filled(i as nat, b),
        decreases 20 - i,
    {
        r.push(b);
        i = i + 1;
        assert(r@ =~= filled(i as nat, b));
    }
    r
}

/// Whether all 20 bytes equal `b`.
fn all_equal(bytes: &Vec<u8>, b: u8) -> (r: bool)
    requires
        bytes@.len() == 20,
    ensures
        r == (bytes@ == filled(20, b)),
{
    let mut i: usize = 0;
    while i < 20
        invariant
            i <= 20,
            bytes@.len() == 20,
            forall|j: int| 0 <= j < i ==> bytes@[j] == b,
        decreases 20 - i,
    {
        if bytes[i] != b {
            assert(bytes@[i as int] != filled(20, b)[i as int]);
            return false;
        }
        i = i + 1;
    }
    assert(bytes@ =~= filled(20, b));
    true
}

impl ContractStatus {
    /// The status as 20 stored bytes.
    pub fn to_bytes(&self) -> (r: Vec<u8>)
        ensures
            r@ == status_bytes(*self),
    {
        match self {
            ContractStatus::Unregistered => filled_bytes(0),
            ContractStatus::RegistrationInProgress => filled_bytes(1),
            ContractStatus::Registered(a) => {
                let mut r: Vec<u8> = Vec::new();
                let mut i: usize = 0;
                while i < 20
                    invariant
                        i <= 20,
                        a@.len() == 20,
                        r@ == a@.subrange(0, i as int),
                    decreases 20 - i,
                {
                    r.push(a.0[i]);
                    i = i + 1;
                    assert(r@ =~= a@.subrange(0, i as int));
                }
                assert(r@ =~= a@);
                r
            },
        }
    }

    /// The status that 20 stored bytes stand for.
    pub fn from_bytes(bytes: &Vec<u8>) -> (r: ContractStatus)
        requires
            bytes@.len() == 20,
        ensures
            stands_for(bytes@, r),
    {
        if all_equal(bytes, 0) {
            ContractStatus::Unregistered
        } else if all_equal(bytes, 1) {
            ContractStatus::RegistrationInProgress
        } else {
            ContractStatus::Registered(H160::from_slice(bytes.as_slice()))
        }
    }
}

/// A stored status reads back as itself, except for the two addresses whose
/// bytes are all zeros or all ones, which read back as the unregistered and
/// in-progress statuses.
pub proof fn status_bytes_round_trip(status: ContractStatus, read: ContractStatus)
    requires
        stands_for(status_bytes(status), read),
        !(status matches ContractStatus::Registered(a) && (a@ == filled(20, 0) || a@ == filled(
            20,
            1,
        ))),
    ensures
        read == status,
{
    assert(filled(20, 0)[0] != filled(20, 1)[0]);
    if let ContractStatus::Registered(a) = status {
        if let ContractStatus::Registered(b) = read {
            assert(b.0 =~= a.0);
        }
    }
}

/// Whether a deployment may start from `status`.
pub open spec fn deployment_accepted(status: ContractStatus) -> bool {
    status is Unregistered
}

/// Status after a successful start of a deployment from `status`.
pub open spec fn deployment_begun(status: ContractStatus) -> ContractStatus {
    if deployment_accepted(status) {
        ContractStatus::RegistrationInProgress
    } else {
        status
    }
}

/// Address of the contract that a receipt reports as created by a successful
/// transaction.
pub open spec fn created_address(receipt: TransactionReceipt) -> Option<H160> {
    if receipt.status == Some(U64(1)) {
        receipt.contract_address
    } else {
        None
    }
}

/// Address that the outcome of a receipt lookup confirms, if any.
pub open spec fn confirmed_address(fetched: Result<Option<TransactionReceipt>, Error>) -> Option<
    H160,
> {
    match fetched {
        Ok(Some(receipt)) => created_address(receipt),
        _ => None,
    }
}

/// Status and pending hash after a confirmation took the outcome `fetched`.
pub open spec fn confirmation_outcome(fetched: Result<Option<TransactionReceipt>, Error>) -> (
    ContractStatus,
    Seq<u8>,
) {
    match confirmed_address(fetched) {
        Some(a) => (ContractStatus::Registered(a), zero_bytes(32)),
        None => (ContractStatus::Unregistered, zero_bytes(32)),
    }
}

/// At most one deployment runs at a time: a check-and-set that succeeds
/// leaves a status from which the next one fails, and one that fails leaves
/// the status as it was.
pub proof fn deployment_entry_is_exclusive(status: ContractStatus)
    ensures
        deployment_accepted(status) ==> deployment_begun(status)
            == ContractStatus::RegistrationInProgress && !deployment_accepted(
            deployment_begun(status),
        ),
        !deployment_accepted(status) ==> deployment_begun(status) == status,
{
}

/// A confirmation that finds no successful receipt with a created address
/// leaves the contract unregistered with no transaction pending: a new
/// deployment is then accepted. One that finds it registers that address,
/// with no transaction pending either.
pub proof fn confirmation_never_leaves_pending(fetched: Result<Option<TransactionReceipt>, Error>)
    ensures
        confirmation_outcome(fetched).1 == zero_bytes(32),
        confirmed_address(fetched) is None ==> deployment_accepted(
            confirmation_outcome(fetched).0,
        ),
        confirmed_address(fetched) matches Some(a) ==> confirmation_outcome(fetched).0
            == ContractStatus::Registered(a),
{
}

/// A deployment whose confirmation finds no receipt can be started again: the
/// first start sets the status in progress and refuses a second start, and
/// the failed confirmation leaves a status from which a new start is accepted
/// and sets it in progress again, with no transaction pending.
pub proof fn redeployment_after_lost_receipt(status: ContractStatus)
    requires
        deployment_accepted(status),
    ensures
        deployment_begun(status) == ContractStatus::RegistrationInProgress,
        !deployment_accepted(deployment_begun(status)),
        deployment_accepted(
            confirmation_outcome(Ok::<Option<TransactionReceipt>, Error>(None)).0,
        ),
        deployment_begun(confirmation_outcome(Ok::<Option<TransactionReceipt>, Error>(None)).0)
            == ContractStatus::RegistrationInProgress,
        confirmation_outcome(Ok::<Option<TransactionReceipt>, Error>(None)).1 == zero_bytes(32),
{
}

/// Bytes of the aggregator contract from its code as hexadecimal text.
pub fn get_aggregator_single_smart_contract_code(hex_code: &str) -> (r: Result<Vec<u8>, Error>)
    ensures
        is_hex_text(hex_code@) ==> (r matches Ok(code) && code@ == hex_decoded(hex_code@)),
        !is_hex_text(hex_code@) ==> r == Err::<Vec<u8>, Error>(Error::InvalidContractCode),
{
    match from_hex_text(hex_code) {
        Some(code) => Ok(code),
        None => Err(Error::InvalidContractCode),
    }
}

/// The aggregator contract: its deployment status and the hash of the
/// deployment transaction that awaits confirmation (zero when none does).
pub struct ContractService {
    status: ContractStatus,
    pending_tx: H256,
}

impl View for ContractService {
    type V = (ContractStatus, Seq<u8>);

    closed spec fn view(&self) -> (ContractStatus, Seq<u8>) {
        (self.status, self.pending_tx@)
    }
}

impl ContractService {
    /// A contract that is not deployed, with no transaction pending.
    pub fn new() -> (r: ContractService)
        ensures
            r@ == (ContractStatus::Unregistered, zero_bytes(32)),
    {
        ContractService { status: ContractStatus::Unregistered, pending_tx: H256::zero() }
    }

    /// A contract in a status, and with a pending hash, kept from an earlier run.
    pub fn with_state(status: ContractStatus, pending_tx: H256) -> (r: ContractService)
        ensures
            r@ == (status, pending_tx@),
    {
        ContractService { status, pending_tx }
    }

    pub fn status(&self) -> (r: ContractStatus)
        ensures
            r == self@.0,
    {
        self.status
    }

    pub fn pending_tx(&self) -> (r: H256)
        ensures
            r@ == self@.1,
    {
        self.pending_tx
    }

    /// The contract's address, if deployed.
    pub fn get_contract(&self) -> (r: Result<H160, Error>)
        ensures
            self@.0 matches ContractStatus::Registered(a) ==> r == Ok::<H160, Error>(a),
            !(self@.0 is Registered) ==> r == Err::<H160, Error>(Error::ContractNotRegistered),
    {
        match self.status {
            ContractStatus::Registered(a) => Ok(a),
            _ => Err(Error::ContractNotRegistered),
        }
    }

    /// Starts deploying the contract whose code is `hex_code`: only from the
    /// unregistered status, which it sets in progress in the same step as it
    /// takes a nonce for the creation. Returns the arguments of the creation
    /// call. Invalid code changes nothing; when no transaction can be stamped
    /// the status returns to unregistered.
    pub fn init_contract(&mut self, evm: &mut EvmCanisterImpl, account: &Account, hex_code: &str)
        -> (r: Result<CreateContractRequest, Error>)
        ensures
            !deployment_accepted(old(self)@.0) ==> {
                &&& r == Err::<CreateContractRequest, Error>(Error::ContractAlreadyRegistered)
                &&& final(self)@ == old(self)@
                &&& final(evm)@ == old(evm)@
            },
            deployment_accepted(old(self)@.0) && !is_hex_text(hex_code@) ==> {
                &&& r == Err::<CreateContractRequest, Error>(Error::InvalidContractCode)
                &&& final(self)@ == old(self)@
                &&& final(evm)@ == old(evm)@
            },
            deployment_accepted(old(self)@.0) && is_hex_text(hex_code@) ==> {
                &&& stamps(account@, old(evm)@, 0, create_contract_params(r), final(evm)@)
                &&& r matches Ok(q) ==> q.code@ == hex_of(hex_decoded(hex_code@)) && final(self)@
                    == (deployment_begun(old(self)@.0), old(self)@.1)
                &&& r is Err ==> final(self)@ == old(self)@
            },
    {
        if !matches!(self.status, ContractStatus::Unregistered) {
            return Err(Error::ContractAlreadyRegistered);
        }
        let code = match get_aggregator_single_smart_contract_code(hex_code) {
            Ok(code) => code,
            Err(e) => return Err(e),
        };
        self.status = ContractStatus::RegistrationInProgress;
        let no_args: Vec<AbiToken> = Vec::new();
        let payload = encode_constructor_call(&code, &no_args);
        match evm.create_contract(account, U256::zero(), &payload) {
            Ok(request) => Ok(request),
            Err(e) => {
                self.status = ContractStatus::Unregistered;
                Err(e)
            },
        }
    }

    /// Takes the outcome of the creation call: keeps the transaction hash for
    /// confirmation, or returns the status to unregistered.
    pub fn on_contract_created(&mut self, submitted: Result<H256, Error>) -> (r: Result<
        H256,
        Error,
    >)
        ensures
            r == submitted,
            submitted matches Ok(hash) ==> final(self)@ == (old(self)@.0, hash@),
            submitted is Err ==> final(self)@ == (ContractStatus::Unregistered, old(self)@.1),
    {
        match submitted {
            Ok(hash) => {
                self.pending_tx = hash;
                Ok(hash)
            },
            Err(e) => {
                self.status = ContractStatus::Unregistered;
                Err(e)
            },
        }
    }

    /// The hash of the deployment transaction to look up for confirmation.
    /// With none pending, confirmation fails before any call.
    pub fn confirm_contract_address(&self) -> (r: Result<H256, Error>)
        ensures
            self@.1 == zero_bytes(32) ==> r == Err::<H256, Error>(Error::ContractNotRegistered),
            self@.1 != zero_bytes(32) ==> (r matches Ok(hash) && hash@ == self@.1),
    {
        if self.pending_tx.is_zero() {
            Err(Error::ContractNotRegistered)
        } else {
            Ok(self.pending_tx)
        }
    }

    /// Address of the created contract, when the receipt reports success.
    pub fn get_created_contract_address(receipt: &TransactionReceipt) -> (r: Option<H160>)
        ensures
            r == created_address(*receipt),
    {
        match receipt.status {
            Some(status) => if status.0 == 1 {
                receipt.contract_address
            } else {
                None
            },
            None => None,
        }
    }

    /// Takes the outcome of the receipt lookup. A successful receipt with a
    /// created address registers that address; anything else (no receipt, a
    /// failed transaction, a failed lookup) returns the status to
    /// unregistered. Either way no transaction is pending afterwards.
    ///
    /// Open question: a transaction that still waits in the EVM canister's
    /// pool has no receipt yet and is treated here as failed. If it is mined
    /// after this reset, a redeployment creates a second contract. Keeping the
    /// deployment in progress while no receipt exists, and resetting only on a
    /// failed status, would avoid that.
    pub fn on_receipt(&mut self, fetched: Result<Option<TransactionReceipt>, Error>) -> (r: Result<
        H160,
        Error,
    >)
        ensures
            final(self)@ == confirmation_outcome(fetched),
            confirmed_address(fetched) matches Some(a) ==> r == Ok::<H160, Error>(a),
            confirmed_address(fetched) is None ==> r == Err::<H160, Error>(Error::TransactionFailed),
    {
        let created = match &fetched {
            Ok(Some(receipt)) => Self::get_created_contract_address(receipt),
            _ => None,
        };
        self.pending_tx = H256::zero();
        match created {
            Some(a) => {
                self.status = ContractStatus::Registered(a);
                Ok(a)
            },
            None => {
                self.status = ContractStatus::Unregistered;
                Err(Error::TransactionFailed)
            },
        }
    }

    /// Arguments for calling the deployed contract's function `name`, whose
    /// parameters are `params`, with `args`; takes a nonce. Fails, changing
    /// nothing, while the contract is not deployed or when the arguments do
    /// not match the parameters.
    pub fn call_contract_func(
        &self,
        evm: &mut EvmCanisterImpl,
        account: &Account,
        name: &str,
        params: &Vec<AbiType>,
        args: &Vec<AbiToken>,
    ) -> (r: Result<CallMessageRequest, Error>)
        ensures
            !(self@.0 is Registered) ==> {
                &&& r == Err::<CallMessageRequest, Error>(Error::ContractNotRegistered)
                &&& final(evm)@ == old(evm)@
            },
            self@.0 is Registered && !types_fit(params@, args@) ==> {
                &&& r == Err::<CallMessageRequest, Error>(Error::EncodingFailed)
                &&& final(evm)@ == old(evm)@
            },
            types_fit(params@, args@) ==> (self@.0 matches ContractStatus::Registered(contract)
                ==> {
                &&& stamps(account@, old(evm)@, 0, call_message_params(r), final(evm)@)
                &&& r matches Ok(q) ==> q.to == contract && q.data@ == hex_of(
                    selector_of(name@, params@) + abi_encoding(args@),
                )
            }),
    {
        let contract = match self.get_contract() {
            Ok(c) => c,
            Err(e) => return Err(e),
        };
        match encode_function_call(name, params, args) {
            Some(data) => evm.transact(account, U256::zero(), contract, &data),
            None => Err(Error::EncodingFailed),
        }
    }

    /// Arguments for the aggregator's `addPair` call; takes a nonce.
    pub fn add_pair(
        &self,
        evm: &mut EvmCanisterImpl,
        account: &Account,
        pair: String,
        decimal: U256,
        description: String,
        version: U256,
    ) -> (r: Result<CallMessageRequest, Error>)
        ensures
            !(self@.0 is Registered) ==> {
                &&& r == Err::<CallMessageRequest, Error>(Error::ContractNotRegistered)
                &&& final(evm)@ == old(evm)@
            },
            self@.0 matches ContractStatus::Registered(contract) ==> {
                &&& stamps(account@, old(evm)@, 0, call_message_params(r), final(evm)@)
                &&& r matches Ok(q) ==> q.to == contract && q.data@ == hex_of(
                    selector_of(ADD_PAIR_NAME@, add_pair_types()) + abi_encoding(
                        seq![
                            AbiToken::String(pair),
                            AbiToken::Uint(decimal),
                            AbiToken::String(description),
                            AbiToken::Uint(version),
                        ],
                    ),
                )
            },
    {
        let params = vec![AbiType::String, AbiType::Uint(8), AbiType::String, AbiType::Uint(256)];
        let args = vec![
            AbiToken::String(pair),
            AbiToken::Uint(decimal),
            AbiToken::String(description),
            AbiToken::Uint(version),
        ];
        assert(params@ =~= add_pair_types());
        assert(token_fits(args@[1], params@[1]) && token_fits(args@[3], params@[3]));
        assert(token_fits(args@[0], params@[0]) && token_fits(args@[2], params@[2]));
        self.call_contract_func(evm, account, ADD_PAIR_NAME, &params, &args)
    }

    /// Arguments for the aggregator's `updateAnswers` call with the pairs and
    /// their latest timestamps and prices; takes a nonce.
    pub fn update_answers(
        &self,
        evm: &mut EvmCanisterImpl,
        account: &Account,
        pairs: Vec<String>,
        timestamps: Vec<U256>,
        prices: Vec<U256>,
    ) -> (r: Result<CallMessageRequest, Error>)
        ensures
            !(self@.0 is Registered) ==> {
                &&& r == Err::<CallMessageRequest, Error>(Error::ContractNotRegistered)
                &&& final(evm)@ == old(evm)@
            },
            self@.0 matches ContractStatus::Registered(contract) ==> {
                &&& stamps(account@, old(evm)@, 0, call_message_params(r), final(evm)@)
                &&& r matches Ok(q) ==> q.to == contract && q.data@ == hex_of(
                    selector_of(UPDATE_ANSWERS_NAME@, update_answers_types()) + abi_encoding(
                        seq![
                            AbiToken::StringArray(pairs),
                            AbiToken::UintArray(timestamps),
                            AbiToken::UintArray(prices),
                        ],
                    ),
                )
            },
    {
        let params = vec![AbiType::StringArray, AbiType::UintArray(256), AbiType::UintArray(256)];
        let args = vec![
            AbiToken::StringArray(pairs),
            AbiToken::UintArray(timestamps),
            AbiToken::UintArray(prices),
        ];
        assert(params@ =~= update_answers_types());
        assert(token_fits(args@[0], params@[0]) && token_fits(args@[1], params@[1]) && token_fits(
            args@[2],
            params@[2],
        ));
        self.call_contract_func(evm, account, UPDATE_ANSWERS_NAME, &params, &args)
    }
}

} // verus!
