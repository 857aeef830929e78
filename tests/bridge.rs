use oracle_canister::account::{
    Account, AccountState, RegistrationAction, RegistrationEvent, RegistrationStep,
};
use oracle_canister::canister::check_owner;
use oracle_canister::codec::{
    call_data, encode_constructor_call, encode_function_call, from_hex_text, to_hex_text, AbiToken,
    AbiType,
};
use oracle_canister::contract::{
    get_aggregator_single_smart_contract_code, ContractService, ContractStatus, ADD_PAIR_NAME,
};
use oracle_canister::did::{Transaction, TransactionReceipt, H160, H256, U256, U64};
use oracle_canister::error::{Error, EvmError, RejectionCode, TransactionPoolError};
use oracle_canister::evm_canister::{
    CallRejection, EvmCanisterImpl, EvmResult, DEFAULT_GAS_LIMIT, REGISTRATION_FEE,
};

const AGGREGATOR_CODE_HEX: &str = "608060405234801561001057600080fd5b50";

fn address(byte: u8) -> H160 {
    H160::new([byte; 20])
}

fn tx_hash(byte: u8) -> H256 {
    H256::new([byte; 32])
}

fn transaction_from(sender: H160) -> Transaction {
    Transaction { from: sender, ..Default::default() }
}

fn registered_account() -> Account {
    Account::with_state(AccountState::Registered(address(7)))
}

fn receipt(status: Option<u64>, created: Option<H160>) -> TransactionReceipt {
    TransactionReceipt { status: status.map(U64::new), contract_address: created, ..Default::default() }
}

fn transport_failure() -> Error {
    Error::CallFailed(RejectionCode::SysTransient, "unreachable".to_string())
}

fn run_registration_to_end(account: &mut Account, tx: &Transaction) -> RegistrationAction {
    let (mut session, action) = account.register_account(tx).unwrap();
    assert_eq!(action, RegistrationAction::CheckAddress(tx.from));
    let action = account.advance_registration(&mut session, RegistrationEvent::AddressChecked(false));
    assert_eq!(action, RegistrationAction::MintTokens(tx.from, U256::from_u64(REGISTRATION_FEE)));
    let action = account.advance_registration(&mut session, RegistrationEvent::TokensMinted);
    assert_eq!(action, RegistrationAction::RegisterAgent);
    let action = account.advance_registration(&mut session, RegistrationEvent::AgentRegistered);
    assert_eq!(action, RegistrationAction::VerifyKey);
    account.advance_registration(&mut session, RegistrationEvent::KeyVerified)
}

#[test]
fn should_get_aggregator_single_smart_contract_code() {
    let code = get_aggregator_single_smart_contract_code(AGGREGATOR_CODE_HEX).unwrap();
    assert!(!code.is_empty())
}

#[test]
fn contract_code_decodes_two_digits_per_byte() {
    let code = get_aggregator_single_smart_contract_code("6080aBcD").unwrap();
    assert_eq!(code, vec![0x60, 0x80, 0xab, 0xcd]);
}

#[test]
fn contract_code_rejects_odd_or_non_hex_text() {
    assert_eq!(get_aggregator_single_smart_contract_code("608"), Err(Error::InvalidContractCode));
    assert_eq!(get_aggregator_single_smart_contract_code("60zz"), Err(Error::InvalidContractCode));
    assert_eq!(from_hex_text(""), Some(vec![]));
}

#[test]
fn hex_text_is_lowercase_two_digits_per_byte() {
    assert_eq!(to_hex_text(&vec![0x01, 0xab, 0xff, 0x00]), "01abff00");
    assert_eq!(to_hex_text(&vec![]), "");
}

#[test]
fn nonces_are_handed_out_in_order_from_one() {
    let mut evm = EvmCanisterImpl::new();
    assert_eq!(evm.next_nonce(), Ok(U256::from_u64(1)));
    assert_eq!(evm.next_nonce(), Ok(U256::from_u64(2)));
    assert_eq!(evm.next_nonce(), Ok(U256::from_u64(3)));
    assert_eq!(evm.nonce(), U256::from_u64(4));
}

#[test]
fn invalid_nonce_reply_sets_the_counter_to_the_expected_nonce() {
    let mut evm = EvmCanisterImpl::new();
    assert_eq!(evm.next_nonce(), Ok(U256::from_u64(1)));
    assert_eq!(evm.next_nonce(), Ok(U256::from_u64(2)));
    assert_eq!(evm.next_nonce(), Ok(U256::from_u64(3)));
    let pool_error = EvmError::TransactionPool(TransactionPoolError::InvalidNonce {
        expected: U256::from_u64(5),
        actual: U256::from_u64(2),
    });
    let reply: Result<EvmResult<H256>, CallRejection> = Ok(Err(pool_error.clone()));
    assert_eq!(evm.process_call_result(reply), Err(Error::Evm(pool_error)));
    assert_eq!(evm.next_nonce(), Ok(U256::from_u64(5)));
}

#[test]
fn reconcile_overwrites_the_counter_either_way() {
    let mut evm = EvmCanisterImpl::with_nonce(U256::from_u64(40));
    evm.reconcile(U256::from_u64(3));
    assert_eq!(evm.next_nonce(), Ok(U256::from_u64(3)));
    evm.reconcile(U256::from_u64(90));
    assert_eq!(evm.next_nonce(), Ok(U256::from_u64(90)));
}

#[test]
fn counter_carries_into_the_next_limb() {
    let mut evm = EvmCanisterImpl::with_nonce(U256([u64::MAX, 0, 0, 0]));
    assert_eq!(evm.next_nonce(), Ok(U256([u64::MAX, 0, 0, 0])));
    assert_eq!(evm.nonce(), U256([0, 1, 0, 0]));
}

#[test]
fn counter_at_the_largest_value_is_not_handed_out() {
    let mut evm = EvmCanisterImpl::with_nonce(U256::max_value());
    assert_eq!(evm.next_nonce(), Err(Error::NonceOverflow));
    assert_eq!(evm.nonce(), U256::max_value());
}

#[test]
fn other_evm_errors_keep_the_counter() {
    let mut evm = EvmCanisterImpl::new();
    let error = EvmError::InsufficientBalance { actual: U256::zero(), expected: U256::one() };
    let reply: Result<EvmResult<()>, CallRejection> = Ok(Err(error.clone()));
    assert_eq!(evm.process_call_result(reply), Err(Error::Evm(error)));
    assert_eq!(evm.nonce(), U256::one());
}

#[test]
fn transport_failures_become_call_failures() {
    let mut evm = EvmCanisterImpl::new();
    let rejected: Result<bool, CallRejection> =
        Err((RejectionCode::CanisterReject, "rejected".to_string()));
    assert_eq!(
        evm.process_call(rejected),
        Err(Error::CallFailed(RejectionCode::CanisterReject, "rejected".to_string()))
    );
    let reply: Result<EvmResult<U256>, CallRejection> =
        Err((RejectionCode::SysFatal, "down".to_string()));
    assert_eq!(
        evm.process_call_result(reply),
        Err(Error::CallFailed(RejectionCode::SysFatal, "down".to_string()))
    );
    let fine: Result<EvmResult<U256>, CallRejection> = Ok(Ok(U256::from_u64(9)));
    assert_eq!(evm.process_call_result(fine), Ok(U256::from_u64(9)));
    assert_eq!(evm.nonce(), U256::one());
}

#[test]
fn transaction_parameters_need_a_registered_account() {
    let mut evm = EvmCanisterImpl::new();
    let account = Account::new();
    assert_eq!(evm.get_tx_params(&account, U256::zero()), Err(Error::AccountNotRegistered));
    assert_eq!(evm.nonce(), U256::one());
}

#[test]
fn transaction_parameters_stamp_sender_gas_and_nonce() {
    let mut evm = EvmCanisterImpl::new();
    let params = evm.get_tx_params(&registered_account(), U256::from_u64(12)).unwrap();
    assert_eq!(params.from, address(7));
    assert_eq!(params.value, U256::from_u64(12));
    assert_eq!(params.gas_limit, DEFAULT_GAS_LIMIT);
    assert_eq!(params.gas_price, None);
    assert_eq!(params.nonce, U256::one());
    assert_eq!(evm.nonce(), U256::from_u64(2));
}

#[test]
fn transact_sends_call_data_as_hex() {
    let mut evm = EvmCanisterImpl::new();
    let request = evm
        .transact(&registered_account(), U256::zero(), address(3), &vec![0xde, 0xad])
        .unwrap();
    assert_eq!(request.to, address(3));
    assert_eq!(request.data, "dead");
    assert_eq!(request.params.nonce, U256::one());
}

#[test]
fn registration_runs_four_steps_and_registers_the_sender() {
    let mut account = Account::new();
    let tx = transaction_from(address(1));
    assert_eq!(run_registration_to_end(&mut account, &tx), RegistrationAction::Done(Ok(())));
    assert_eq!(account.state(), AccountState::Registered(address(1)));
    assert_eq!(account.get_account(), Ok(address(1)));
}

#[test]
fn registration_while_in_progress_is_refused_and_changes_nothing() {
    let mut account = Account::new();
    let evm = EvmCanisterImpl::new();
    let tx = transaction_from(address(1));
    let (session, _) = account.register_account(&tx).unwrap();
    assert_eq!(session.step(), RegistrationStep::CheckAddress);
    assert_eq!(account.register_account(&tx).err(), Some(Error::AccountAlreadyRegistered));
    assert_eq!(account.state(), AccountState::RegistrationInProgress);
    assert_eq!(evm.nonce(), U256::one());
}

#[test]
fn registration_after_registered_is_refused() {
    let mut account = registered_account();
    let tx = transaction_from(address(1));
    assert_eq!(account.register_account(&tx).err(), Some(Error::AccountAlreadyRegistered));
    assert_eq!(account.state(), AccountState::Registered(address(7)));
}

#[test]
fn registration_failing_at_token_issuance_rolls_back_and_can_be_retried() {
    let mut account = Account::new();
    let tx = transaction_from(address(2));
    let (mut session, _) = account.register_account(&tx).unwrap();
    account.advance_registration(&mut session, RegistrationEvent::AddressChecked(false));
    let action = account
        .advance_registration(&mut session, RegistrationEvent::Failed(transport_failure()));
    assert_eq!(action, RegistrationAction::Done(Err(transport_failure())));
    assert_eq!(account.state(), AccountState::Unregistered);
    assert_eq!(session.step(), RegistrationStep::Finished);

    assert_eq!(run_registration_to_end(&mut account, &tx), RegistrationAction::Done(Ok(())));
    assert_eq!(account.state(), AccountState::Registered(address(2)));
}

#[test]
fn every_failed_registration_step_resets_the_account() {
    let events = [
        RegistrationEvent::AddressChecked(false),
        RegistrationEvent::TokensMinted,
        RegistrationEvent::AgentRegistered,
    ];
    for failing_step in 0..4 {
        let mut account = Account::new();
        let tx = transaction_from(address(4));
        let (mut session, _) = account.register_account(&tx).unwrap();
        for event in events.iter().take(failing_step) {
            account.advance_registration(&mut session, event.clone());
        }
        let action =
            account.advance_registration(&mut session, RegistrationEvent::Failed(Error::TransactionFailed));
        assert_eq!(action, RegistrationAction::Done(Err(Error::TransactionFailed)));
        assert_eq!(account.state(), AccountState::Unregistered);
        assert!(account.register_account(&tx).is_ok());
    }
}

#[test]
fn registration_of_a_known_address_fails() {
    let mut account = Account::new();
    let tx = transaction_from(address(5));
    let (mut session, _) = account.register_account(&tx).unwrap();
    let action = account.advance_registration(&mut session, RegistrationEvent::AddressChecked(true));
    assert_eq!(action, RegistrationAction::Done(Err(Error::AddressAlreadyRegistered(address(5)))));
    assert_eq!(account.state(), AccountState::Unregistered);
}

#[test]
fn out_of_order_reply_ends_the_registration() {
    let mut account = Account::new();
    let tx = transaction_from(address(6));
    let (mut session, _) = account.register_account(&tx).unwrap();
    let action = account.advance_registration(&mut session, RegistrationEvent::KeyVerified);
    assert_eq!(action, RegistrationAction::Done(Err(Error::UnexpectedReply)));
    assert_eq!(account.state(), AccountState::Unregistered);
    let again = account.advance_registration(&mut session, RegistrationEvent::KeyVerified);
    assert_eq!(again, RegistrationAction::Done(Err(Error::UnexpectedReply)));
    assert_eq!(account.state(), AccountState::Unregistered);
}

#[test]
fn reset_clears_any_registration_status() {
    let mut account = registered_account();
    account.reset();
    assert_eq!(account.state(), AccountState::Unregistered);
    assert_eq!(account.get_account(), Err(Error::AccountNotRegistered));
}

#[test]
fn deployment_then_early_confirmation_then_redeployment() {
    let mut evm = EvmCanisterImpl::new();
    let account = registered_account();
    let mut contract = ContractService::new();

    let request = contract.init_contract(&mut evm, &account, AGGREGATOR_CODE_HEX).unwrap();
    assert_eq!(request.code, AGGREGATOR_CODE_HEX);
    assert_eq!(request.params.nonce, U256::one());
    assert_eq!(contract.status(), ContractStatus::RegistrationInProgress);
    assert_eq!(contract.on_contract_created(Ok(tx_hash(9))), Ok(tx_hash(9)));
    assert_eq!(contract.pending_tx(), tx_hash(9));

    assert_eq!(contract.confirm_contract_address(), Ok(tx_hash(9)));
    assert_eq!(contract.on_receipt(Ok(None)), Err(Error::TransactionFailed));
    assert_eq!(contract.status(), ContractStatus::Unregistered);
    assert_eq!(contract.pending_tx(), H256::zero());

    let again = contract.init_contract(&mut evm, &account, AGGREGATOR_CODE_HEX).unwrap();
    assert_eq!(again.params.nonce, U256::from_u64(2));
    assert_eq!(contract.on_contract_created(Ok(tx_hash(10))), Ok(tx_hash(10)));
    let created = receipt(Some(1), Some(address(8)));
    assert_eq!(contract.on_receipt(Ok(Some(created))), Ok(address(8)));
    assert_eq!(contract.status(), ContractStatus::Registered(address(8)));
    assert_eq!(contract.get_contract(), Ok(address(8)));
    assert_eq!(contract.pending_tx(), H256::zero());
}

#[test]
fn second_deployment_is_refused_while_one_is_in_progress() {
    let mut evm = EvmCanisterImpl::new();
    let account = registered_account();
    let mut contract = ContractService::new();
    contract.init_contract(&mut evm, &account, AGGREGATOR_CODE_HEX).unwrap();
    assert_eq!(
        contract.init_contract(&mut evm, &account, AGGREGATOR_CODE_HEX),
        Err(Error::ContractAlreadyRegistered)
    );
    assert_eq!(evm.nonce(), U256::from_u64(2));
}

#[test]
fn deployment_with_invalid_code_changes_nothing() {
    let mut evm = EvmCanisterImpl::new();
    let mut contract = ContractService::new();
    assert_eq!(
        contract.init_contract(&mut evm, &registered_account(), "xyz"),
        Err(Error::InvalidContractCode)
    );
    assert_eq!(contract.status(), ContractStatus::Unregistered);
    assert_eq!(evm.nonce(), U256::one());
}

#[test]
fn deployment_without_an_account_rolls_back() {
    let mut evm = EvmCanisterImpl::new();
    let mut contract = ContractService::new();
    assert_eq!(
        contract.init_contract(&mut evm, &Account::new(), AGGREGATOR_CODE_HEX),
        Err(Error::AccountNotRegistered)
    );
    assert_eq!(contract.status(), ContractStatus::Unregistered);
    assert_eq!(evm.nonce(), U256::one());
}

#[test]
fn failed_creation_call_rolls_back() {
    let mut evm = EvmCanisterImpl::new();
    let mut contract = ContractService::new();
    contract.init_contract(&mut evm, &registered_account(), AGGREGATOR_CODE_HEX).unwrap();
    assert_eq!(contract.on_contract_created(Err(transport_failure())), Err(transport_failure()));
    assert_eq!(contract.status(), ContractStatus::Unregistered);
    assert_eq!(contract.pending_tx(), H256::zero());
}

#[test]
fn confirmation_with_nothing_pending_fails() {
    let contract = ContractService::new();
    assert_eq!(contract.confirm_contract_address(), Err(Error::ContractNotRegistered));
}

#[test]
fn confirmation_of_a_failed_transaction_resets() {
    let mut contract =
        ContractService::with_state(ContractStatus::RegistrationInProgress, tx_hash(3));
    let failed = receipt(Some(0), Some(address(8)));
    assert_eq!(contract.on_receipt(Ok(Some(failed))), Err(Error::TransactionFailed));
    assert_eq!(contract.status(), ContractStatus::Unregistered);
    assert_eq!(contract.pending_tx(), H256::zero());
    assert_eq!(contract.confirm_contract_address(), Err(Error::ContractNotRegistered));
}

#[test]
fn confirmation_after_a_failed_lookup_resets() {
    let mut contract =
        ContractService::with_state(ContractStatus::RegistrationInProgress, tx_hash(3));
    assert_eq!(contract.on_receipt(Err(transport_failure())), Err(Error::TransactionFailed));
    assert_eq!(contract.status(), ContractStatus::Unregistered);
    assert_eq!(contract.pending_tx(), H256::zero());
}

#[test]
fn created_address_needs_success_status() {
    let created = receipt(Some(1), Some(address(8)));
    assert_eq!(ContractService::get_created_contract_address(&created), Some(address(8)));
    let failed = receipt(Some(0), Some(address(8)));
    assert_eq!(ContractService::get_created_contract_address(&failed), None);
    let unknown = receipt(None, Some(address(8)));
    assert_eq!(ContractService::get_created_contract_address(&unknown), None);
    let no_address = receipt(Some(1), None);
    assert_eq!(ContractService::get_created_contract_address(&no_address), None);
}

#[test]
fn contract_calls_need_a_deployed_contract() {
    let mut evm = EvmCanisterImpl::new();
    let contract = ContractService::new();
    let result = contract.add_pair(
        &mut evm,
        &registered_account(),
        "ETH/USD".to_string(),
        U256::from_u64(8),
        "ether".to_string(),
        U256::one(),
    );
    assert_eq!(result, Err(Error::ContractNotRegistered));
    assert_eq!(evm.nonce(), U256::one());
}

#[test]
fn add_pair_call_is_addressed_to_the_contract() {
    let mut evm = EvmCanisterImpl::new();
    let contract = ContractService::with_state(ContractStatus::Registered(address(8)), H256::zero());
    let request = contract
        .add_pair(
            &mut evm,
            &registered_account(),
            "ETH/USD".to_string(),
            U256::from_u64(8),
            "ether".to_string(),
            U256::one(),
        )
        .unwrap();
    assert_eq!(request.to, address(8));
    assert_eq!(request.params.nonce, U256::one());
    assert_eq!(request.params.value, U256::zero());
    // selector, then four head words and the two strings' tails
    assert_eq!(request.data.len(), 2 * (4 + 32 * 8));
    let args = vec![
        AbiToken::String("ETH/USD".to_string()),
        AbiToken::Uint(U256::from_u64(8)),
        AbiToken::String("ether".to_string()),
        AbiToken::Uint(U256::one()),
    ];
    let params = vec![AbiType::String, AbiType::Uint(8), AbiType::String, AbiType::Uint(256)];
    let data = encode_function_call(ADD_PAIR_NAME, &params, &args).unwrap();
    assert_eq!(request.data, to_hex_text(&data));
}

#[test]
fn update_answers_call_encodes_three_arrays() {
    let mut evm = EvmCanisterImpl::new();
    let contract = ContractService::with_state(ContractStatus::Registered(address(8)), H256::zero());
    let request = contract
        .update_answers(
            &mut evm,
            &registered_account(),
            vec!["ETH/USD".to_string()],
            vec![U256::from_u64(1_700_000_000)],
            vec![U256::from_u64(1800)],
        )
        .unwrap();
    assert_eq!(request.to, address(8));
    // selector, three offsets, then each array's length and its element (the
    // string array also holds an offset, a length and the text)
    assert_eq!(request.data.len(), 2 * (4 + 32 * 3 + 32 * 4 + 32 * 2 + 32 * 2));
}

#[test]
fn uint_argument_is_one_big_endian_word() {
    let data = encode_function_call(
        "f",
        &vec![AbiType::Uint(256)],
        &vec![AbiToken::Uint(U256::from_u64(5))],
    )
    .unwrap();
    assert_eq!(data.len(), 36);
    assert!(data[4..35].iter().all(|b| *b == 0));
    assert_eq!(data[35], 5);
}

#[test]
fn contract_call_with_unfitting_arguments_fails_and_keeps_the_nonce() {
    let mut evm = EvmCanisterImpl::new();
    let contract = ContractService::with_state(ContractStatus::Registered(address(8)), H256::zero());
    let params = vec![AbiType::String, AbiType::Uint(8), AbiType::String, AbiType::Uint(256)];
    let result = contract.call_contract_func(&mut evm, &registered_account(), ADD_PAIR_NAME, &params, &vec![]);
    assert_eq!(result, Err(Error::EncodingFailed));
    assert_eq!(evm.nonce(), U256::one());
    let undeployed = ContractService::new();
    let result = undeployed.call_contract_func(&mut evm, &registered_account(), ADD_PAIR_NAME, &params, &vec![]);
    assert_eq!(result, Err(Error::ContractNotRegistered));
}

#[test]
fn constructor_without_arguments_is_the_code() {
    let code = vec![0x60, 0x80];
    assert_eq!(encode_constructor_call(&code, &vec![]), code);
    let with_arg = encode_constructor_call(&code, &vec![AbiToken::Uint(U256::one())]);
    assert_eq!(with_arg.len(), 34);
    assert_eq!(with_arg[33], 1);
}

#[test]
fn call_data_is_selector_then_arguments() {
    assert_eq!(call_data(&[1, 2, 3, 4], &vec![9, 9]), vec![1, 2, 3, 4, 9, 9]);
}

#[test]
fn u256_helpers() {
    assert!(U256::zero().is_zero());
    assert!(!U256::one().is_zero());
    assert_eq!(U256::max_value(), U256([u64::MAX; 4]));
    assert_eq!(U256::one().checked_increment(), Some(U256::from_u64(2)));
    assert_eq!(U256::max_value().checked_increment(), None);
    assert!(H256::zero().is_zero());
    assert!(!tx_hash(1).is_zero());
    assert!(U64::zero().is_zero());
    assert_eq!(U64::one(), U64::new(1));
}

#[test]
fn owner_check_lets_the_owner_or_anyone_without_owner_through() {
    assert_eq!(check_owner(&vec![1, 2, 3], &vec![1, 2, 3]), Ok(()));
    assert_eq!(check_owner(&vec![1, 2, 3], &vec![1, 2]), Err(Error::NotAuthorized));
    assert_eq!(check_owner(&vec![4], &vec![9, 9]), Ok(()));
}

#[test]
fn contract_status_bytes_round_trip() {
    let statuses = [
        ContractStatus::Unregistered,
        ContractStatus::RegistrationInProgress,
        ContractStatus::Registered(address(8)),
    ];
    assert_eq!(ContractStatus::Unregistered.to_bytes(), vec![0u8; 20]);
    assert_eq!(ContractStatus::RegistrationInProgress.to_bytes(), vec![1u8; 20]);
    for status in statuses {
        assert_eq!(ContractStatus::from_bytes(&status.to_bytes()), status);
    }
}

#[test]
fn balance_is_read_from_the_account_reply() {
    let evm = EvmCanisterImpl::new();
    let reply = Ok(oracle_canister::did::BasicAccount {
        balance: U256::from_u64(77),
        nonce: U256::from_u64(3),
    });
    assert_eq!(evm.get_balance(reply), Ok(U256::from_u64(77)));
}

#[test]
fn registration_events_follow_the_replies() {
    assert_eq!(RegistrationEvent::from_address_check(Ok(true)), RegistrationEvent::AddressChecked(true));
    assert_eq!(RegistrationEvent::from_mint(Ok(U256::one())), RegistrationEvent::TokensMinted);
    assert_eq!(RegistrationEvent::from_agent_registration(Ok(())), RegistrationEvent::AgentRegistered);
    assert_eq!(RegistrationEvent::from_key_verification(Ok(())), RegistrationEvent::KeyVerified);
    assert_eq!(
        RegistrationEvent::from_mint(Err(transport_failure())),
        RegistrationEvent::Failed(transport_failure())
    );
}

#[test]
fn u256_checked_add_carries_and_detects_overflow() {
    let a = U256([u64::MAX, u64::MAX, 0, 0]);
    assert_eq!(a.checked_add(&U256::one()), Some(U256([0, 0, 1, 0])));
    assert_eq!(U256::from_u64(2).checked_add(&U256::from_u64(3)), Some(U256::from_u64(5)));
    assert_eq!(U256::max_value().checked_add(&U256::one()), None);
    assert_eq!(U256::max_value().checked_add(&U256::zero()), Some(U256::max_value()));
}

#[test]
fn u256_checked_sub_borrows_and_detects_underflow() {
    let a = U256([0, 0, 1, 0]);
    assert_eq!(a.checked_sub(&U256::one()), Some(U256([u64::MAX, u64::MAX, 0, 0])));
    assert_eq!(U256::from_u64(5).checked_sub(&U256::from_u64(3)), Some(U256::from_u64(2)));
    assert_eq!(U256::from_u64(3).checked_sub(&U256::from_u64(5)), None);
    assert_eq!(U256::max_value().checked_sub(&U256::max_value()), Some(U256::zero()));
}
